//! Release archives of the services: checking them against their published
//! SHA-256 checksum, and taking the program and the example config out of
//! them.
use vstd::prelude::*;
use sha2::Digest;
use std::io::Read;
use crate::text::{chars_of, concat2, concat3, has_suffix, is_ws, push_all, push_char, trim_start_seq};

verus! {

/// The SHA-256 digest of a byte sequence.
pub uninterp spec fn sha256_of(data: Seq<u8>) -> Seq<u8>;

/// `sha2::Sha256::digest`: the SHA-256 digest of the data, 32 bytes long.
#[verifier::external_body]
fn sha256_digest(data: &[u8]) -> (r: Vec<u8>)
    ensures
        r@ == sha256_of(data@),
        r@.len() == 32,
{
    sha2::Sha256::digest(data).to_vec()
}

/// A hexadecimal digit in lower case.
pub open spec fn hex_digit(n: nat) -> char {
    if n < 10 {
        ((n + 48) as u8) as char
    } else {
        ((n + 87) as u8) as char
    }
}

/// Bytes in lower-case hexadecimal, two digits each (`{:x}` of a digest).
pub open spec fn hex_lower(bytes: Seq<u8>) -> Seq<char>
    decreases bytes.len(),
{
    if bytes.len() == 0 {
        Seq::empty()
    } else {
        hex_lower(bytes.drop_last()) + seq![
            hex_digit((bytes.last() / 16) as nat),
            hex_digit((bytes.last() % 16) as nat),
        ]
    }
}

fn hex_char(n: u8) -> (c: char)
    requires
        n < 16,
    ensures
        c == hex_digit(n as nat),
{
    if n < 10 {
        (n + 48) as char
    } else {
        (n + 87) as char
    }
}

/// The lower-case hexadecimal text of some bytes.
pub fn to_hex_lower(bytes: &Vec<u8>) -> (r: String)
    ensures
        r@ == hex_lower(bytes@),
{
    let mut s = String::new();
    let mut i: usize = 0;
    while i < bytes.len()
        invariant
            0 <= i <= bytes.len(),
            s@ == hex_lower(bytes@.subrange(0, i as int)),
        decreases bytes.len() - i,
    {
        let b = bytes[i];
        assert(bytes@.subrange(0, i + 1).drop_last() =~= bytes@.subrange(0, i as int));
        push_char(&mut s, hex_char(b / 16));
        push_char(&mut s, hex_char(b % 16));
        i += 1;
    }
    assert(bytes@.subrange(0, bytes.len() as int) =~= bytes@);
    s
}

/// The leading run of characters that are not whitespace.
pub open spec fn leading_word(s: Seq<char>) -> Seq<char>
    decreases s.len(),
{
    if s.len() == 0 || is_ws(s[0]) {
        Seq::empty()
    } else {
        seq![s[0]] + leading_word(s.drop_first())
    }
}

/// The first whitespace-separated word of a text
/// (`split_whitespace().next()`).
pub open spec fn first_word(s: Seq<char>) -> Option<Seq<char>> {
    let t = trim_start_seq(s);
    if t.len() == 0 {
        None
    } else {
        Some(leading_word(t))
    }
}

proof fn lemma_leading_word_prefix(s: Seq<char>, k: int)
    requires
        0 <= k <= s.len(),
        forall|j: int| 0 <= j < k ==> !is_ws(#[trigger] s[j]),
        k == s.len() || is_ws(s[k]),
    ensures
        leading_word(s) == s.subrange(0, k),
    decreases s.len(),
{
    if s.len() == 0 || is_ws(s[0]) {
        assert(k == 0);
        assert(s.subrange(0, 0) =~= Seq::<char>::empty());
    } else {
        assert forall|j: int| 0 <= j < k - 1 implies !is_ws(#[trigger] s.drop_first()[j]) by {
            assert(s.drop_first()[j] == s[j + 1]);
        }
        lemma_leading_word_prefix(s.drop_first(), k - 1);
        assert(seq![s[0]] + s.drop_first().subrange(0, k - 1) =~= s.subrange(0, k));
    }
}

/// The first word of a text.
pub fn first_word_exec(s: &str) -> (r: Option<Vec<char>>)
    ensures
        match (r, first_word(s@)) {
            (Some(a), Some(b)) => a@ == b,
            (None, None) => true,
            _ => false,
        },
{
    let chars = chars_of(s);
    let mut start: usize = 0;
    assert(chars@.subrange(0, chars.len() as int) =~= chars@);
    while start < chars.len() && crate::text::char_is_ws(chars[start])
        invariant
            0 <= start <= chars.len(),
            chars@ == s@,
            trim_start_seq(s@) == trim_start_seq(chars@.subrange(start as int, chars.len() as int)),
        decreases chars.len() - start,
    {
        assert(chars@.subrange(start as int, chars.len() as int).drop_first() =~= chars@.subrange(
            start + 1,
            chars.len() as int,
        ));
        start += 1;
    }
    let ghost t = chars@.subrange(start as int, chars.len() as int);
    assert(trim_start_seq(t) == t);
    if start == chars.len() {
        return None;
    }
    let mut end = start;
    let mut word: Vec<char> = Vec::new();
    while end < chars.len() && !crate::text::char_is_ws(chars[end])
        invariant
            start <= end <= chars.len(),
            word@ =~= chars@.subrange(start as int, end as int),
            forall|j: int| start <= j < end ==> !is_ws(#[trigger] chars@[j]),
        decreases chars.len() - end,
    {
        word.push(chars[end]);
        end += 1;
    }
    proof {
        assert forall|j: int| 0 <= j < end - start implies !is_ws(#[trigger] t[j]) by {
            assert(t[j] == chars@[start + j]);
        }
        lemma_leading_word_prefix(t, end - start);
        assert(t.subrange(0, end - start) =~= word@);
    }
    Some(word)
}

/// What a check of an archive against its checksum file gives: the file's
/// first word, in lower case, must be the archive's digest in hexadecimal.
/// The digest holds only hexadecimal digits, and only ASCII characters
/// lower-case to them, so lowering ASCII letters alone decides the same.
pub open spec fn spec_checksum_check(archive: Seq<u8>, checksum_text: Seq<char>) -> Result<(), Seq<char>> {
    match first_word(checksum_text) {
        None => Err("invalid checksum file"@),
        Some(w) => if crate::text::ascii_lower_seq(w) == hex_lower(sha256_of(archive)) {
            Ok(())
        } else {
            Err("checksum verification failed"@)
        },
    }
}

/// The checksum text names the digest: its first word, in lower case, is
/// the digest in hexadecimal.
pub open spec fn spec_checksum_matches(digest: Seq<u8>, checksum_text: Seq<char>) -> bool {
    first_word(checksum_text) matches Some(w) && crate::text::ascii_lower_seq(w) == hex_lower(digest)
}

/// Whether the text of a `.sha256` file names the digest.
pub fn checksum_matches(digest: &Vec<u8>, checksum_text: &str) -> (r: bool)
    ensures
        r == spec_checksum_matches(digest@, checksum_text@),
{
    let word = match first_word_exec(checksum_text) {
        Some(w) => w,
        None => return false,
    };
    let expected = crate::text::string_from_chars(&word);
    let expected_lower = crate::text::ascii_lower_chars(&expected);
    let actual = to_hex_lower(digest);
    crate::text::eq_str(&expected_lower, &actual)
}

/// Checks a downloaded archive against the text of its `.sha256` file.
pub fn verify_sha256(archive: &[u8], checksum_text: &str) -> (r: Result<(), String>)
    ensures
        match (r, spec_checksum_check(archive@, checksum_text@)) {
            (Ok(()), Ok(())) => true,
            (Err(a), Err(b)) => a@ == b,
            _ => false,
        },
{
    if first_word_exec(checksum_text).is_none() {
        return Err(String::from_str("invalid checksum file"));
    }
    let digest = sha256_digest(archive);
    if checksum_matches(&digest, checksum_text) {
        Ok(())
    } else {
        Err(String::from_str("checksum verification failed"))
    }
}

/// The entries of an archive by name and content.
pub open spec fn entry_byte_views(v: Seq<(String, Vec<u8>)>) -> Seq<(Seq<char>, Seq<u8>)> {
    Seq::new(v.len(), |i: int| (v[i].0@, v[i].1@))
}

/// The texts held in a vector of strings.
pub open spec fn text_views(v: Seq<String>) -> Seq<Seq<char>> {
    Seq::new(v.len(), |i: int| v[i]@)
}

/// The paths of the entries of a gzip-compressed tar archive, in order;
/// nothing where they cannot all be read.
pub uninterp spec fn tar_gz_paths(data: Seq<u8>) -> Option<Seq<Seq<char>>>;

/// The content of entry `index` of a gzip-compressed tar archive; nothing
/// where it cannot be read.
pub uninterp spec fn tar_gz_entry(data: Seq<u8>, index: nat) -> Option<Seq<u8>>;

/// Lists the entries of a `.tar.gz` archive (`flate2::read::GzDecoder`,
/// `tar::Archive::entries`, `Entry::path`): each path, as text, in order.
#[verifier::external_body]
fn read_tar_gz_paths(data: &[u8]) -> (r: Result<Vec<String>, String>)
    ensures
        match r {
            Ok(v) => tar_gz_paths(data@) == Some(text_views(v@)),
            Err(_) => tar_gz_paths(data@) is None,
        },
{
    let mut archive = tar::Archive::new(flate2::read::GzDecoder::new(data));
    let mut out = Vec::new();
    for entry in archive.entries().map_err(|e| e.to_string())? {
        let entry = entry.map_err(|e| e.to_string())?;
        out.push(entry.path().map_err(|e| e.to_string())?.to_string_lossy().to_string());
    }
    Ok(out)
}

/// Reads the content of entry `index` of a `.tar.gz` archive
/// (`tar::Archive::entries`, then `Read::read_to_end` on that entry).
#[verifier::external_body]
fn read_tar_gz_entry(data: &[u8], index: usize) -> (r: Result<Vec<u8>, String>)
    ensures
        match r {
            Ok(v) => tar_gz_entry(data@, index as nat) == Some(v@),
            Err(_) => tar_gz_entry(data@, index as nat) is None,
        },
{
    let mut archive = tar::Archive::new(flate2::read::GzDecoder::new(data));
    let mut entries = archive.entries().map_err(|e| e.to_string())?;
    let entry = entries.nth(index).ok_or_else(|| String::from("no such entry"))?;
    let mut bytes = Vec::new();
    entry.map_err(|e| e.to_string())?.read_to_end(&mut bytes).map_err(|e| e.to_string())?;
    Ok(bytes)
}

/// The names of the entries of a zip archive, in order; nothing where they
/// cannot all be read.
pub uninterp spec fn zip_names(data: Seq<u8>) -> Option<Seq<Seq<char>>>;

/// The content of entry `index` of a zip archive; nothing where it cannot be
/// read.
pub uninterp spec fn zip_entry(data: Seq<u8>, index: nat) -> Option<Seq<u8>>;

/// Lists the entries of a zip archive (`zip::ZipArchive::new`, `by_index`,
/// `ZipFile::name`): each name, in order.
#[verifier::external_body]
fn read_zip_names(data: &[u8]) -> (r: Result<Vec<String>, String>)
    ensures
        match r {
            Ok(v) => zip_names(data@) == Some(text_views(v@)),
            Err(_) => zip_names(data@) is None,
        },
{
    let mut archive = zip::ZipArchive::new(std::io::Cursor::new(data)).map_err(|e| e.to_string())?;
    let mut out = Vec::new();
    for index in 0..archive.len() {
        out.push(archive.by_index(index).map_err(|e| e.to_string())?.name().to_string());
    }
    Ok(out)
}

/// Reads the content of entry `index` of a zip archive (`by_index`, then
/// `Read::read_to_end`, which checks the entry's CRC).
#[verifier::external_body]
fn read_zip_entry(data: &[u8], index: usize) -> (r: Result<Vec<u8>, String>)
    ensures
        match r {
            Ok(v) => zip_entry(data@, index as nat) == Some(v@),
            Err(_) => zip_entry(data@, index as nat) is None,
        },
{
    let mut archive = zip::ZipArchive::new(std::io::Cursor::new(data)).map_err(|e| e.to_string())?;
    let mut entry = archive.by_index(index).map_err(|e| e.to_string())?;
    let mut bytes = Vec::new();
    entry.read_to_end(&mut bytes).map_err(|e| e.to_string())?;
    Ok(bytes)
}

/// A path with `\` separators written as `/`.
pub open spec fn slashes(s: Seq<char>) -> Seq<char> {
    Seq::new(s.len(), |i: int| if s[i] == '\\' { '/' } else { s[i] })
}

fn to_slashes(s: &str) -> (r: Vec<char>)
    ensures
        r@ == slashes(s@),
{
    let chars = chars_of(s);
    let mut out: Vec<char> = Vec::new();
    let mut i: usize = 0;
    while i < chars.len()
        invariant
            0 <= i <= chars.len(),
            chars@ == s@,
            out@ =~= slashes(s@).subrange(0, i as int),
        decreases chars.len() - i,
    {
        let c = chars[i];
        out.push(if c == '\\' { '/' } else { c });
        i += 1;
    }
    assert(slashes(s@).subrange(0, chars.len() as int) =~= slashes(s@));
    out
}

/// Which file of a release archive an entry is.
pub enum ArchiveRole {
    Program,
    ExampleConfig,
    Other,
}

/// An entry of a Unix release (`.tar.gz`): the program is `<service>` and
/// the example config `<service>.json.example`, at the top or in a
/// directory.
pub open spec fn tar_role(path: Seq<char>, service: Seq<char>) -> ArchiveRole {
    let p = slashes(path);
    if has_suffix(p, "/"@ + service) || p == service {
        ArchiveRole::Program
    } else if has_suffix(p, "/"@ + service + ".json.example"@) || p == service + ".json.example"@ {
        ArchiveRole::ExampleConfig
    } else {
        ArchiveRole::Other
    }
}

/// An entry of a Windows release (`.zip`): the program ends in
/// `<service>.exe`, the example config in `<service>.json.example`.
pub open spec fn zip_role(name: Seq<char>, service: Seq<char>) -> ArchiveRole {
    let p = slashes(name);
    if has_suffix(p, service + ".exe"@) {
        ArchiveRole::Program
    } else if has_suffix(p, service + ".json.example"@) {
        ArchiveRole::ExampleConfig
    } else {
        ArchiveRole::Other
    }
}

/// The role of an archive entry, by the naming of a Unix release or of a
/// Windows one.
fn entry_role(name: &str, service_name: &str, unix: bool) -> (r: ArchiveRole)
    ensures
        r == (if unix {
            tar_role(name@, service_name@)
        } else {
            zip_role(name@, service_name@)
        }),
{
    let p = to_slashes(name);
    let example_name = concat2(service_name, ".json.example");
    if unix {
        let slash_name = concat2("/", service_name);
        let slash_example = concat3("/", service_name, ".json.example");
        if crate::text::ends_with_seq(&p, &slash_name) || crate::text::eq_str(&p, service_name) {
            ArchiveRole::Program
        } else if crate::text::ends_with_seq(&p, &slash_example) || crate::text::eq_str(&p, &example_name) {
            ArchiveRole::ExampleConfig
        } else {
            ArchiveRole::Other
        }
    } else {
        let exe_name = concat2(service_name, ".exe");
        if crate::text::ends_with_seq(&p, &exe_name) {
            ArchiveRole::Program
        } else if crate::text::ends_with_seq(&p, &example_name) {
            ArchiveRole::ExampleConfig
        } else {
            ArchiveRole::Other
        }
    }
}

/// The content of the last entry whose role (under `role`) is `want`.
pub open spec fn last_with_role(
    entries: Seq<(Seq<char>, Seq<u8>)>,
    role: spec_fn(Seq<char>) -> ArchiveRole,
    want_program: bool,
) -> Option<Seq<u8>>
    decreases entries.len(),
{
    if entries.len() == 0 {
        None
    } else {
        let r = role(entries.last().0);
        let hit = if want_program {
            r is Program
        } else {
            r is ExampleConfig
        };
        if hit {
            Some(entries.last().1)
        } else {
            last_with_role(entries.drop_last(), role, want_program)
        }
    }
}

/// The program and example config a release archive yields, or the message
/// for what is missing.
pub open spec fn spec_extract(
    entries: Option<Seq<(Seq<char>, Seq<u8>)>>,
    role: spec_fn(Seq<char>) -> ArchiveRole,
    program_name: Seq<char>,
    service: Seq<char>,
) -> Option<Result<(Seq<u8>, Seq<u8>), Seq<char>>> {
    match entries {
        None => None,
        Some(es) => match (last_with_role(es, role, true), last_with_role(es, role, false)) {
            (None, _) => Some(Err("missing "@ + program_name + " in archive"@)),
            (Some(_), None) => Some(Err("missing "@ + service + ".json.example in archive"@)),
            (Some(p), Some(e)) => Some(Ok((p, e))),
        },
    }
}

/// Picks the program and the example config out of an archive's entries:
/// the last entry of each role.
pub fn pick_release_files(
    entries: Vec<(String, Vec<u8>)>,
    service_name: &str,
    unix: bool,
    program_name: &str,
) -> (r: Result<(Vec<u8>, Vec<u8>), String>)
    ensures
        ({
            let role = if unix {
                |p: Seq<char>| tar_role(p, service_name@)
            } else {
                |p: Seq<char>| zip_role(p, service_name@)
            };
            match spec_extract(Some(entry_byte_views(entries@)), role, program_name@, service_name@) {
                Some(Ok((p, e))) => r matches Ok((a, b)) && a@ == p && b@ == e,
                Some(Err(m)) => r matches Err(x) && x@ == m,
                None => false,
            }
        }),
{
    let ghost role = if unix {
        |p: Seq<char>| tar_role(p, service_name@)
    } else {
        |p: Seq<char>| zip_role(p, service_name@)
    };
    let ghost views = entry_byte_views(entries@);
    let slash_name = concat2("/", service_name);
    let slash_example = concat3("/", service_name, ".json.example");
    let example_name = concat2(service_name, ".json.example");
    let exe_name = concat2(service_name, ".exe");
    let service_chars = chars_of(service_name);
    let example_chars = chars_of(&example_name);
    let mut program: Option<Vec<u8>> = None;
    let mut example: Option<Vec<u8>> = None;
    let mut i: usize = 0;
    while i < entries.len()
        invariant
            0 <= i <= entries.len(),
            views == entry_byte_views(entries@),
            slash_name@ == "/"@ + service_name@,
            slash_example@ == "/"@ + service_name@ + ".json.example"@,
            example_name@ == service_name@ + ".json.example"@,
            exe_name@ == service_name@ + ".exe"@,
            service_chars@ == service_name@,
            example_chars@ == example_name@,
            role == (if unix {
                |p: Seq<char>| tar_role(p, service_name@)
            } else {
                |p: Seq<char>| zip_role(p, service_name@)
            }),
            match program {
                Some(b) => last_with_role(views.subrange(0, i as int), role, true) == Some(b@),
                None => last_with_role(views.subrange(0, i as int), role, true) is None,
            },
            match example {
                Some(b) => last_with_role(views.subrange(0, i as int), role, false) == Some(b@),
                None => last_with_role(views.subrange(0, i as int), role, false) is None,
            },
        decreases entries.len() - i,
    {
        let name = &entries[i].0;
        let p = to_slashes(name);
        let is_program = if unix {
            crate::text::ends_with_seq(&p, &slash_name) || crate::text::eq_str(&p, service_name)
        } else {
            crate::text::ends_with_seq(&p, &exe_name)
        };
        let is_example = if unix {
            crate::text::ends_with_seq(&p, &slash_example) || crate::text::eq_str(&p, &example_name)
        } else {
            crate::text::ends_with_seq(&p, &example_name)
        };
        proof {
            assert(views.subrange(0, i + 1).drop_last() =~= views.subrange(0, i as int));
            assert(views.subrange(0, i + 1).last() == views[i as int]);
            assert(views[i as int].0 == name@);
        }
        if is_program {
            program = Some(entries[i].1.clone());
        } else if is_example {
            example = Some(entries[i].1.clone());
        }
        i += 1;
    }
    assert(views.subrange(0, entries.len() as int) =~= views);
    match program {
        None => {
            let mut msg = concat2("missing ", program_name);
            crate::text::push_all(&mut msg, " in archive");
            Err(msg)
        },
        Some(p) => match example {
            None => {
                let mut msg = concat2("missing ", service_name);
                crate::text::push_all(&mut msg, ".json.example in archive");
                Err(msg)
            },
            Some(e) => Ok((p, e)),
        },
    }
}

/// The entries of an archive that are the program or the example config,
/// each name with its content read by `content`, in order; nothing where
/// one of them cannot be read. Other entries are not read.
pub open spec fn read_matching(
    names: Seq<Seq<char>>,
    role: spec_fn(Seq<char>) -> ArchiveRole,
    content: spec_fn(nat) -> Option<Seq<u8>>,
) -> Option<Seq<(Seq<char>, Seq<u8>)>>
    decreases names.len(),
{
    if names.len() == 0 {
        Some(Seq::empty())
    } else {
        match read_matching(names.drop_last(), role, content) {
            None => None,
            Some(prev) => if role(names.last()) is Other {
                Some(prev)
            } else {
                match content((names.len() - 1) as nat) {
                    None => None,
                    Some(c) => Some(prev.push((names.last(), c))),
                }
            },
        }
    }
}

proof fn lemma_read_matching_fails_on(
    names: Seq<Seq<char>>,
    k: int,
    role: spec_fn(Seq<char>) -> ArchiveRole,
    content: spec_fn(nat) -> Option<Seq<u8>>,
)
    requires
        0 <= k <= names.len(),
        read_matching(names.subrange(0, k), role, content) is None,
    ensures
        read_matching(names, role, content) is None,
    decreases names.len() - k,
{
    if k == names.len() {
        assert(names.subrange(0, k) =~= names);
    } else {
        assert(names.drop_last().subrange(0, k) =~= names.subrange(0, k));
        lemma_read_matching_fails_on(names.drop_last(), k, role, content);
    }
}

/// What a release archive yields, from the names of its entries and the
/// content of each: the program and example config, the message for what
/// is missing, or nothing where the names or a needed entry cannot be read.
pub open spec fn spec_extract_entries(
    names: Option<Seq<Seq<char>>>,
    role: spec_fn(Seq<char>) -> ArchiveRole,
    content: spec_fn(nat) -> Option<Seq<u8>>,
    program_name: Seq<char>,
    service: Seq<char>,
) -> Option<Result<(Seq<u8>, Seq<u8>), Seq<char>>> {
    match names {
        None => None,
        Some(ns) => match read_matching(ns, role, content) {
            None => None,
            Some(es) => spec_extract(Some(es), role, program_name, service),
        },
    }
}

/// Reads the entries that are the program or the example config.
fn read_release_entries(archive: &[u8], names: &Vec<String>, service_name: &str, unix: bool) -> (r: Result<
    Vec<(String, Vec<u8>)>,
    String,
>)
    ensures
        ({
            let role = if unix {
                |p: Seq<char>| tar_role(p, service_name@)
            } else {
                |p: Seq<char>| zip_role(p, service_name@)
            };
            let content = if unix {
                |i: nat| tar_gz_entry(archive@, i)
            } else {
                |i: nat| zip_entry(archive@, i)
            };
            match r {
                Ok(v) => read_matching(text_views(names@), role, content) == Some(entry_byte_views(v@)),
                Err(_) => read_matching(text_views(names@), role, content) is None,
            }
        }),
{
    let ghost role = if unix {
        |p: Seq<char>| tar_role(p, service_name@)
    } else {
        |p: Seq<char>| zip_role(p, service_name@)
    };
    let ghost content = if unix {
        |i: nat| tar_gz_entry(archive@, i)
    } else {
        |i: nat| zip_entry(archive@, i)
    };
    let ghost views = text_views(names@);
    let mut picked: Vec<(String, Vec<u8>)> = Vec::new();
    let mut i: usize = 0;
    proof {
        assert(views.subrange(0, 0) =~= Seq::<Seq<char>>::empty());
        assert(entry_byte_views(picked@) =~= Seq::<(Seq<char>, Seq<u8>)>::empty());
    }
    while i < names.len()
        invariant
            0 <= i <= names.len(),
            views == text_views(names@),
            role == (if unix {
                |p: Seq<char>| tar_role(p, service_name@)
            } else {
                |p: Seq<char>| zip_role(p, service_name@)
            }),
            content == (if unix {
                |i: nat| tar_gz_entry(archive@, i)
            } else {
                |i: nat| zip_entry(archive@, i)
            }),
            read_matching(views.subrange(0, i as int), role, content) == Some(entry_byte_views(picked@)),
        decreases names.len() - i,
    {
        let name = &names[i];
        let ghost before = picked@;
        proof {
            assert(views.subrange(0, i + 1).drop_last() =~= views.subrange(0, i as int));
            assert(views.subrange(0, i + 1).last() == name@);
        }
        let r = entry_role(name, service_name, unix);
        match r {
            ArchiveRole::Other => {},
            _ => {
                let read = if unix {
                    read_tar_gz_entry(archive, i)
                } else {
                    read_zip_entry(archive, i)
                };
                match read {
                    Ok(bytes) => {
                        picked.push((name.clone(), bytes));
                        proof {
                            assert(entry_byte_views(picked@) =~= entry_byte_views(before).push((name@, picked@.last().1@)));
                        }
                    },
                    Err(e) => {
                        proof {
                            lemma_read_matching_fails_on(views, i + 1, role, content);
                        }
                        return Err(e);
                    },
                }
            },
        }
        i += 1;
    }
    assert(views.subrange(0, names.len() as int) =~= views);
    Ok(picked)
}

/// Takes the program and example config out of a Unix release archive,
/// reading only those two entries.
pub fn extract_tar_service_archive(archive: &[u8], service_name: &str) -> (r: Result<(Vec<u8>, Vec<u8>), String>)
    ensures
        match spec_extract_entries(
            tar_gz_paths(archive@),
            |p: Seq<char>| tar_role(p, service_name@),
            |i: nat| tar_gz_entry(archive@, i),
            service_name@,
            service_name@,
        ) {
            Some(Ok((p, e))) => r matches Ok((a, b)) && a@ == p && b@ == e,
            Some(Err(m)) => r matches Err(x) && x@ == m,
            None => r is Err,
        },
{
    let names = read_tar_gz_paths(archive)?;
    let entries = read_release_entries(archive, &names, service_name, true)?;
    pick_release_files(entries, service_name, true, service_name)
}

/// Takes the program and example config out of a Windows release archive,
/// reading only those two entries.
pub fn extract_zip_service_archive(archive: &[u8], service_name: &str) -> (r: Result<(Vec<u8>, Vec<u8>), String>)
    ensures
        match spec_extract_entries(
            zip_names(archive@),
            |p: Seq<char>| zip_role(p, service_name@),
            |i: nat| zip_entry(archive@, i),
            service_name@ + ".exe"@,
            service_name@,
        ) {
            Some(Ok((p, e))) => r matches Ok((a, b)) && a@ == p && b@ == e,
            Some(Err(m)) => r matches Err(x) && x@ == m,
            None => r is Err,
        },
{
    let names = read_zip_names(archive)?;
    let entries = read_release_entries(archive, &names, service_name, false)?;
    let program_name = concat2(service_name, ".exe");
    pick_release_files(entries, service_name, false, &program_name)
}


/// A file attached to a release: its name and where to download it.
#[derive(Debug, Clone)]
pub struct ReleaseAsset {
    pub name: String,
    pub url: String,
}

/// The repository the manager downloads its releases from.
pub open spec fn repo_slug() -> Seq<char> {
    "OpenVulcan/vulcan-local-db"@
}

/// Where the release API describes a tagged release, or the latest one.
pub fn release_api_url(tag: Option<&str>) -> (r: String)
    ensures
        r@ == "https://api.github.com/repos/"@ + repo_slug() + match tag {
            Some(t) => "/releases/tags/"@ + t@,
            None => "/releases/latest"@,
        },
{
    let mut u = String::from_str("https://api.github.com/repos/");
    push_all(&mut u, "OpenVulcan/vulcan-local-db");
    match tag {
        Some(t) => {
            push_all(&mut u, "/releases/tags/");
            push_all(&mut u, t);
        },
        None => push_all(&mut u, "/releases/latest"),
    }
    u
}

/// Where the Windows service wrapper is downloaded from.
pub fn winsw_download_url() -> (r: String)
    ensures
        r@ == "https://github.com/winsw/winsw/releases/download/v2.12.0/WinSW-x64.exe"@,
{
    String::from_str("https://github.com/winsw/winsw/releases/download/v2.12.0/WinSW-x64.exe")
}

pub open spec fn spec_archive_name(service: Seq<char>, tag: Seq<char>, target: Seq<char>, windows: bool) -> Seq<char> {
    service + "-"@ + tag + "-"@ + target + if windows {
        ".zip"@
    } else {
        ".tar.gz"@
    }
}

/// The index of the first asset with the given name.
pub open spec fn first_asset(assets: Seq<ReleaseAsset>, name: Seq<char>, k: int) -> bool {
    &&& 0 <= k < assets.len()
    &&& assets[k].name@ == name
    &&& forall|j: int| 0 <= j < k ==> (#[trigger] assets[j]).name@ != name
}

/// The first asset with the given name, if any.
pub fn find_asset(assets: &Vec<ReleaseAsset>, name: &str) -> (r: Option<usize>)
    ensures
        r matches Some(k) ==> first_asset(assets@, name@, k as int),
        r is None <==> forall|j: int| 0 <= j < assets@.len() ==> (#[trigger] assets@[j]).name@ != name@,
{
    let mut i: usize = 0;
    while i < assets.len()
        invariant
            0 <= i <= assets.len(),
            forall|j: int| 0 <= j < i ==> (#[trigger] assets@[j]).name@ != name@,
        decreases assets.len() - i,
    {
        if crate::text::eq_str(&chars_of(&assets[i].name), name) {
            return Some(i);
        }
        i += 1;
    }
    None
}

/// What to download to install a service from a release: the archive for
/// the platform (a zip on Windows, a gzipped tar elsewhere) and its
/// checksum file, by name and address. A release that lacks either is an
/// error that names the missing file.
pub fn release_downloads(service_name: &str, tag: &str, target: &str, windows: bool, assets: &Vec<ReleaseAsset>) -> (r: Result<(String, String, String), String>)
    ensures
        ({
            let archive = spec_archive_name(service_name@, tag@, target@, windows);
            let checksum = archive + ".sha256"@;
            match r {
                Ok((name, archive_url, checksum_url)) => name@ == archive && (exists|k: int|
                    first_asset(assets@, archive, k) && #[trigger] assets@[k].url@ == archive_url@) && (exists|k: int|
                    first_asset(assets@, checksum, k) && #[trigger] assets@[k].url@ == checksum_url@),
                Err(e) => ((forall|j: int| 0 <= j < assets@.len() ==> (#[trigger] assets@[j]).name@ != archive) && e@
                    == "release does not provide asset "@ + archive) || ((exists|k: int| first_asset(assets@, archive, k))
                    && (forall|j: int| 0 <= j < assets@.len() ==> (#[trigger] assets@[j]).name@ != checksum) && e@
                    == "release does not provide checksum "@ + checksum),
            }
        }),
{
    let mut archive = concat3(service_name, "-", tag);
    push_all(&mut archive, "-");
    push_all(&mut archive, target);
    push_all(&mut archive, if windows { ".zip" } else { ".tar.gz" });
    let checksum = concat2(&archive, ".sha256");
    let a = match find_asset(assets, &archive) {
        Some(k) => k,
        None => return Err(concat2("release does not provide asset ", &archive)),
    };
    let c = match find_asset(assets, &checksum) {
        Some(k) => k,
        None => return Err(concat2("release does not provide checksum ", &checksum)),
    };
    let archive_url = assets[a].url.clone();
    let checksum_url = assets[c].url.clone();
    assert(assets@[a as int].url@ == archive_url@);
    assert(assets@[c as int].url@ == checksum_url@);
    Ok((archive, archive_url, checksum_url))
}

} // verus!
