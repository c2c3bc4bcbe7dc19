//! The linkup block that `start` appends to a service's `.env` file and
//! that `stop` removes again.
use vstd::prelude::*;
use vstd::utf8::*;
use vstd::string::StringSliceAdditionalSpecFns;
use vstd::string::StrSliceExecFns;
use vstd::string::StringExecFns;

verus! {

/// The line that opens and closes the block linkup manages in an env file.
pub open spec fn separator_chars() -> Seq<char> {
    "##### Linkup environment - DO NOT EDIT #####"@
}

/// The separator as it is stored on disk.
pub open spec fn separator_bytes() -> Seq<u8> {
    encode_utf8(separator_chars())
}

pub fn separator() -> (s: &'static str)
    ensures
        s@ == separator_chars(),
{
    "##### Linkup environment - DO NOT EDIT #####"
}

/// The separator is 44 ASCII bytes, none of which is a line feed.
pub proof fn lemma_separator_bytes()
    ensures
        separator_bytes().len() == 44,
        separator_bytes()[0] == 35u8,
        forall|i: int| 0 <= i < 44 ==> separator_bytes()[i] != 10u8 && separator_bytes()[i] < 128u8,
{
    reveal_strlit("##### Linkup environment - DO NOT EDIT #####");
    assert(is_ascii_chars(separator_chars()));
    is_ascii_chars_encode_utf8(separator_chars());
}


/// `pattern` occurs in `bytes` starting at index `i`.
pub open spec fn occurs_at(bytes: Seq<u8>, pattern: Seq<u8>, i: int) -> bool {
    0 <= i && i + pattern.len() <= bytes.len() && bytes.subrange(i, i + pattern.len()) == pattern
}

/// The first index at or after `i` where `pattern` occurs in `bytes`.
pub open spec fn find_from(bytes: Seq<u8>, pattern: Seq<u8>, i: int) -> Option<int>
    decreases bytes.len() + 1 - i,
{
    if i < 0 || i + pattern.len() > bytes.len() {
        None
    } else if occurs_at(bytes, pattern, i) {
        Some(i)
    } else {
        find_from(bytes, pattern, i + 1)
    }
}

/// The last index at or before `i` where `pattern` occurs in `bytes`.
pub open spec fn rfind_from(bytes: Seq<u8>, pattern: Seq<u8>, i: int) -> Option<int>
    decreases i + 1,
{
    if i < 0 {
        None
    } else if occurs_at(bytes, pattern, i) {
        Some(i)
    } else {
        rfind_from(bytes, pattern, i - 1)
    }
}

/// Where `str::find` reports `pattern` in `bytes`.
pub open spec fn find_first(bytes: Seq<u8>, pattern: Seq<u8>) -> Option<int> {
    find_from(bytes, pattern, 0)
}

/// Where `str::rfind` reports `pattern` in `bytes`.
pub open spec fn find_last(bytes: Seq<u8>, pattern: Seq<u8>) -> Option<int> {
    rfind_from(bytes, pattern, bytes.len() - pattern.len())
}

fn matches_at(bytes: &[u8], pattern: &[u8], i: usize) -> (r: bool)
    requires
        i + pattern@.len() <= bytes@.len(),
    ensures
        r == occurs_at(bytes@, pattern@, i as int),
{
    let n = bytes.len();
    let mut j: usize = 0;
    while j < pattern.len()
        invariant
            n == bytes@.len(),
            j <= pattern@.len(),
            i + pattern@.len() <= bytes@.len(),
            bytes@.subrange(i as int, i + j) == pattern@.subrange(0, j as int),
        decreases pattern@.len() - j,
    {
        assert(i + j < bytes@.len());
        if bytes[i + j] != pattern[j] {
            assert(bytes@.subrange(i as int, i + pattern@.len())[j as int] != pattern@[j as int]);
            return false;
        }
        assert(bytes@.subrange(i as int, i + j + 1) =~= bytes@.subrange(i as int, i + j).push(
            bytes@[i + j],
        ));
        assert(pattern@.subrange(0, j + 1) =~= pattern@.subrange(0, j as int).push(pattern@[j as int]));
        j = j + 1;
    }
    assert(pattern@.subrange(0, pattern@.len() as int) =~= pattern@);
    true
}

/// The first index where `pattern` occurs in `bytes`.
pub fn find_bytes(bytes: &[u8], pattern: &[u8]) -> (r: Option<usize>)
    ensures
        match r {
            Some(i) => find_first(bytes@, pattern@) == Some(i as int),
            None => find_first(bytes@, pattern@) is None,
        },
{
    if pattern.len() > bytes.len() {
        return None;
    }
    let last: usize = bytes.len() - pattern.len();
    let mut i: usize = 0;
    loop
        invariant
            i <= last,
            last + pattern@.len() == bytes@.len(),
            find_first(bytes@, pattern@) == find_from(bytes@, pattern@, i as int),
        decreases last - i,
    {
        if matches_at(bytes, pattern, i) {
            return Some(i);
        }
        if i == last {
            return None;
        }
        i = i + 1;
    }
}

/// The last index where `pattern` occurs in `bytes`.
pub fn rfind_bytes(bytes: &[u8], pattern: &[u8]) -> (r: Option<usize>)
    ensures
        match r {
            Some(i) => find_last(bytes@, pattern@) == Some(i as int),
            None => find_last(bytes@, pattern@) is None,
        },
{
    if pattern.len() > bytes.len() {
        return None;
    }
    let mut i: usize = bytes.len() - pattern.len();
    loop
        invariant
            i + pattern@.len() <= bytes@.len(),
            find_last(bytes@, pattern@) == rfind_from(bytes@, pattern@, i as int),
        decreases i,
    {
        if matches_at(bytes, pattern, i) {
            return Some(i);
        }
        if i == 0 {
            assert(rfind_from(bytes@, pattern@, -1) is None);
            return None;
        }
        i = i - 1;
    }
}


/// `chars` holds a line feed at index `k`.
pub open spec fn newline_at(chars: Seq<char>, k: int) -> bool {
    0 <= k < chars.len() && chars[k] == '\n'
}

/// The byte range, first and last index inclusive, that `clear` removes from
/// an env file: from the first separator to the end of the last one, widened by
/// one line feed on each side. The check for each line feed looks up the
/// character whose index equals the byte index, not the byte itself.
pub open spec fn block_bounds(bytes: Seq<u8>, chars: Seq<char>) -> Option<(int, int)> {
    match (find_first(bytes, separator_bytes()), find_last(bytes, separator_bytes())) {
        (Some(f), Some(l)) => {
            let s = if f > 0 && newline_at(chars, f - 1) {
                f - 1
            } else {
                f
            };
            let e0 = l + separator_bytes().len() - 1;
            let e = if newline_at(chars, e0 + 1) {
                e0 + 1
            } else {
                e0
            };
            Some((s, e))
        },
        _ => None,
    }
}

/// `bytes` without its trailing line feeds.
pub open spec fn trim_trailing_newlines(bytes: Seq<u8>) -> Seq<u8>
    decreases bytes.len(),
{
    if bytes.len() > 0 && bytes.last() == 10u8 {
        trim_trailing_newlines(bytes.drop_last())
    } else {
        bytes
    }
}

/// The new content of an env file once its linkup block is removed, or `None`
/// when the file holds no separator and is left as it is.
pub open spec fn cleared_env_content(bytes: Seq<u8>, chars: Seq<char>) -> Option<Seq<u8>> {
    match block_bounds(bytes, chars) {
        Some((s, e)) => {
            let drained = if s < e {
                bytes.subrange(0, s) + bytes.subrange(e + 1, bytes.len() as int)
            } else {
                bytes
            };
            Some(trim_trailing_newlines(drained).push(10u8))
        },
        None => None,
    }
}

/// Removing the block is defined when both ends of the removed range fall on
/// character boundaries (elsewhere `String::drain` panics).
pub open spec fn clear_env_content_defined(bytes: Seq<u8>, chars: Seq<char>) -> bool {
    match block_bounds(bytes, chars) {
        Some((s, e)) => s < e ==> is_char_boundary(bytes, s) && is_char_boundary(bytes, e + 1),
        None => true,
    }
}

/// A UTF-8 encoding has at least one byte per character.
pub proof fn lemma_encode_utf8_len(chars: Seq<char>)
    ensures
        encode_utf8(chars).len() >= chars.len(),
    decreases chars.len(),
{
    if chars.len() > 0 {
        lemma_encode_utf8_len(chars.drop_first());
    }
}

fn newline_char_at(content: &str, nchars: usize, k: usize) -> (r: bool)
    requires
        nchars == content@.len(),
    ensures
        r == newline_at(content@, k as int),
{
    k < nchars && content.get_char(k) == '\n'
}

fn find_block_bounds(content: &str) -> (r: Option<(usize, usize)>)
    ensures
        match r {
            Some((s, e)) => block_bounds(content.spec_bytes(), content@) == Some((s as int, e as int))
                && s < e && e < content.spec_bytes().len(),
            None => block_bounds(content.spec_bytes(), content@) is None,
        },
{
    let bytes = content.as_bytes();
    let sep = separator().as_bytes();
    proof {
        lemma_separator_bytes();
        lemma_encode_utf8_len(content@);
    }
    let first = find_bytes(bytes, sep);
    let last = rfind_bytes(bytes, sep);
    match (first, last) {
        (Some(f), Some(l)) => {
            let n = bytes.len();
            proof {
                assert(occurs_at(bytes@, sep@, f as int)) by {
                    lemma_find_from_found(bytes@, sep@, 0);
                }
                assert(occurs_at(bytes@, sep@, l as int)) by {
                    lemma_rfind_from_found(bytes@, sep@, bytes@.len() - sep@.len());
                }
                assert(f <= l) by {
                    lemma_find_from_first(bytes@, sep@, 0, l as int);
                }
            }
            let nchars = content.unicode_len();
            let mut start = f;
            if f > 0 && newline_char_at(content, nchars, f - 1) {
                start = f - 1;
            }
            let mut end = l + 43;
            if end < bytes.len() && newline_char_at(content, nchars, end + 1) {
                end = end + 1;
            }
            Some((start, end))
        },
        _ => None,
    }
}

/// What `find_from` reports is an occurrence.
pub proof fn lemma_find_from_found(bytes: Seq<u8>, pattern: Seq<u8>, i: int)
    ensures
        find_from(bytes, pattern, i) matches Some(k) ==> occurs_at(bytes, pattern, k) && i <= k,
    decreases bytes.len() + 1 - i,
{
    if !(i < 0 || i + pattern.len() > bytes.len()) && !occurs_at(bytes, pattern, i) {
        lemma_find_from_found(bytes, pattern, i + 1);
    }
}

/// What `rfind_from` reports is an occurrence.
pub proof fn lemma_rfind_from_found(bytes: Seq<u8>, pattern: Seq<u8>, i: int)
    ensures
        rfind_from(bytes, pattern, i) matches Some(k) ==> occurs_at(bytes, pattern, k) && k <= i,
    decreases i + 1,
{
    if i >= 0 && !occurs_at(bytes, pattern, i) {
        lemma_rfind_from_found(bytes, pattern, i - 1);
    }
}

/// `find_from` reports the earliest occurrence at or after `i`.
pub proof fn lemma_find_from_first(bytes: Seq<u8>, pattern: Seq<u8>, i: int, j: int)
    requires
        0 <= i <= j,
        occurs_at(bytes, pattern, j),
    ensures
        find_from(bytes, pattern, i) matches Some(k) && k <= j,
    decreases j - i,
{
    if !occurs_at(bytes, pattern, i) {
        lemma_find_from_first(bytes, pattern, i + 1, j);
    }
}


/// Whether `clear_env_content` is defined on `content`; where it is not, the
/// removal of the block panics.
pub fn clear_env_content_is_defined(content: &str) -> (r: bool)
    ensures
        r == clear_env_content_defined(content.spec_bytes(), content@),
{
    let n = content.as_bytes().len();
    match find_block_bounds(content) {
        Some((s, e)) => content.is_char_boundary(s) && content.is_char_boundary(e + 1),
        None => true,
    }
}

/// The content an env file is rewritten with when linkup's block is removed
/// from it: everything from the first separator to the last one, with the
/// line feeds around them, goes, then trailing line feeds are cut down to one.
/// `None` when `content` holds no separator (the file is left alone).
pub fn clear_env_content(content: &str) -> (r: Option<Vec<u8>>)
    requires
        clear_env_content_defined(content.spec_bytes(), content@),
    ensures
        match r {
            Some(v) => cleared_env_content(content.spec_bytes(), content@) == Some(v@),
            None => cleared_env_content(content.spec_bytes(), content@) is None,
        },
{
    let bytes = content.as_bytes();
    match find_block_bounds(content) {
        Some((start, end)) => {
            let n = bytes.len();
            let mut out: Vec<u8> = Vec::new();
            let mut i: usize = 0;
            while i < start
                invariant
                    start < end < n == bytes@.len(),
                    i <= start,
                    out@ == bytes@.subrange(0, i as int),
                decreases start - i,
            {
                out.push(bytes[i]);
                assert(bytes@.subrange(0, i + 1) =~= bytes@.subrange(0, i as int).push(bytes@[i as int]));
                i = i + 1;
            }
            let mut j: usize = end + 1;
            while j < n
                invariant
                    start < end < n == bytes@.len(),
                    end + 1 <= j <= n,
                    out@ == bytes@.subrange(0, start as int) + bytes@.subrange(end + 1, j as int),
                decreases n - j,
            {
                out.push(bytes[j]);
                assert(bytes@.subrange(end + 1, j + 1) =~= bytes@.subrange(end + 1, j as int).push(bytes@[j as int]));
                j = j + 1;
            }
            let ghost drained = out@;
            while out.len() > 0 && out[out.len() - 1] == 10u8
                invariant
                    trim_trailing_newlines(out@) == trim_trailing_newlines(drained),
                decreases out@.len(),
            {
                out.pop();
            }
            out.push(10u8);
            Some(out)
        },
        None => None,
    }
}


/// `dev` without one trailing line feed, as `write_env_content` drops it.
pub open spec fn trim_one_newline(dev: Seq<char>) -> Seq<char> {
    if dev.len() > 0 && dev.last() == '\n' {
        dev.drop_last()
    } else {
        dev
    }
}

/// The text `write_env_content` appends to an env file: the content of the service's
/// `.env.linkup` file between two separator lines.
pub open spec fn env_block_chars(dev: Seq<char>) -> Seq<char> {
    seq!['\n'] + separator_chars() + seq!['\n'] + trim_one_newline(dev) + seq!['\n']
        + separator_chars() + seq!['\n']
}

/// The file already holds a linkup block (it contains a separator).
pub open spec fn has_block(bytes: Seq<u8>) -> bool {
    find_first(bytes, separator_bytes()) is Some
}

/// Whether `content` already holds a linkup block; `write_env_content` leaves such a file
/// alone.
pub fn has_linkup_block(content: &str) -> (r: bool)
    ensures
        r == has_block(content.spec_bytes()),
{
    find_bytes(content.as_bytes(), separator().as_bytes()).is_some()
}

/// The block appended to an env file for the dev env content `dev_env_content`.
pub fn env_block(dev_env_content: &str) -> (r: String)
    ensures
        r@ == env_block_chars(dev_env_content@),
{
    let n = dev_env_content.unicode_len();
    let dev = if n > 0 && dev_env_content.get_char(n - 1) == '\n' {
        dev_env_content.substring_char(0, n - 1)
    } else {
        dev_env_content
    };
    let newline = "\n";
    proof {
        reveal_strlit("\n");
    }
    let mut r = String::new();
    r.append(newline);
    r.append(separator());
    r.append(newline);
    r.append(dev);
    r.append(newline);
    r.append(separator());
    r.append(newline);
    assert(r@ =~= env_block_chars(dev_env_content@));
    r
}


/// What writing the linkup block into an env file that holds `existing`
/// leaves in it: nothing to write (`None`) when the file already holds a
/// block, else the file with the block of `dev_env_content` appended.
pub fn write_env_content(existing: &str, dev_env_content: &str) -> (r: Option<String>)
    ensures
        has_block(existing.spec_bytes()) ==> r is None,
        !has_block(existing.spec_bytes()) ==> (r matches Some(c) && c@ == existing@ + env_block_chars(dev_env_content@)),
{
    if has_linkup_block(existing) {
        return None;
    }
    let mut c = String::from_str(existing);
    let block = env_block(dev_env_content);
    c.append(block.as_str());
    Some(c)
}

/// The encoding of a concatenation is the concatenation of the encodings.
pub proof fn lemma_encode_utf8_concat(a: Seq<char>, b: Seq<char>)
    ensures
        encode_utf8(a + b) == encode_utf8(a) + encode_utf8(b),
    decreases a.len(),
{
    if a.len() == 0 {
        assert(a + b =~= b);
        assert(encode_utf8(a) + encode_utf8(b) =~= encode_utf8(b));
    } else {
        assert((a + b).drop_first() =~= a.drop_first() + b);
        assert((a + b)[0] == a[0]);
        lemma_encode_utf8_concat(a.drop_first(), b);
        assert(encode_utf8(a + b) =~= encode_utf8(a) + encode_utf8(b));
    }
}

proof fn lemma_newline_bytes()
    ensures
        encode_utf8(seq!['\n']) == seq![10u8],
{
    assert(is_ascii_chars(seq!['\n']));
    is_ascii_chars_encode_utf8(seq!['\n']);
    assert(encode_utf8(seq!['\n']) =~= seq![10u8]);
}

/// When `find_from` reports nothing, nothing occurs from `i` on.
pub proof fn lemma_find_from_none(bytes: Seq<u8>, pattern: Seq<u8>, i: int, j: int)
    requires
        0 <= i <= j,
        find_from(bytes, pattern, i) is None,
    ensures
        !occurs_at(bytes, pattern, j),
{
    if occurs_at(bytes, pattern, j) {
        lemma_find_from_first(bytes, pattern, i, j);
    }
}

/// `find_from` reports `k` when `k` is the first occurrence from `i` on.
pub proof fn lemma_find_from_is(bytes: Seq<u8>, pattern: Seq<u8>, i: int, k: int)
    requires
        0 <= i <= k,
        occurs_at(bytes, pattern, k),
        forall|j: int| i <= j < k ==> !occurs_at(bytes, pattern, j),
    ensures
        find_from(bytes, pattern, i) == Some(k),
    decreases k - i,
{
    if i < k {
        lemma_find_from_is(bytes, pattern, i + 1, k);
    }
}

proof fn lemma_trim_push_newline(x: Seq<u8>)
    ensures
        trim_trailing_newlines(x.push(10u8)) == trim_trailing_newlines(x),
{
    assert(x.push(10u8).drop_last() =~= x);
}

/// The bytes of the block that `write_env_content` appends.
proof fn lemma_env_block_bytes(dev: Seq<char>)
    ensures
        encode_utf8(env_block_chars(dev)) == seq![10u8] + separator_bytes() + seq![10u8]
            + encode_utf8(trim_one_newline(dev)) + seq![10u8] + separator_bytes() + seq![10u8],
{
    let nl = seq!['\n'];
    let sc = separator_chars();
    let d = trim_one_newline(dev);
    lemma_newline_bytes();
    lemma_encode_utf8_concat(nl, sc);
    lemma_encode_utf8_concat(nl + sc, nl);
    lemma_encode_utf8_concat(nl + sc + nl, d);
    lemma_encode_utf8_concat(nl + sc + nl + d, nl);
    lemma_encode_utf8_concat(nl + sc + nl + d + nl, sc);
    lemma_encode_utf8_concat(nl + sc + nl + d + nl + sc, nl);
}

/// The bytes that clearing leaves in a file that `write_env_content` has
/// just extended.
proof fn lemma_clear_after_write_bytes(existing: Seq<char>, dev: Seq<char>)
    requires
        !has_block(encode_utf8(existing)),
    ensures
        clear_env_content_defined(
            encode_utf8(existing + env_block_chars(dev)),
            existing + env_block_chars(dev),
        ),
        cleared_env_content(
            encode_utf8(existing + env_block_chars(dev)),
            existing + env_block_chars(dev),
        ) == Some(trim_trailing_newlines(encode_utf8(existing)).push(10u8)),
{
    let content = existing + env_block_chars(dev);
    let eb = encode_utf8(existing);
    let sb = separator_bytes();
    let db = encode_utf8(trim_one_newline(dev));
    let bytes = encode_utf8(content);
    lemma_separator_bytes();
    lemma_env_block_bytes(dev);
    lemma_encode_utf8_concat(existing, env_block_chars(dev));
    let blkb = seq![10u8] + sb + seq![10u8] + db + seq![10u8] + sb + seq![10u8];
    assert(bytes == eb + blkb);
    let n = eb.len() as int;
    let len = bytes.len() as int;
    assert(sb.len() == 44);
    assert(seq![10u8].len() == 1);
    assert(blkb.len() == 92 + db.len());
    assert(len == n + 92 + db.len());
    assert(bytes[n] == 10u8);
    assert(bytes[len - 1] == 10u8);
    assert(forall|k: int| 0 <= k < 44 ==> bytes[n + 1 + k] == sb[k]);
    assert(forall|k: int| 0 <= k < 44 ==> bytes[len - 45 + k] == sb[k]);
    // the first separator
    assert(occurs_at(bytes, sb, n + 1)) by {
        assert(bytes.subrange(n + 1, n + 45) =~= sb);
    }
    assert forall|j: int| 0 <= j < n + 1 implies !occurs_at(bytes, sb, j) by {
        if occurs_at(bytes, sb, j) {
            if j + 44 <= n {
                assert(eb.subrange(j, j + 44) =~= bytes.subrange(j, j + 44));
                lemma_find_from_none(eb, sb, 0, j);
            } else {
                assert(bytes.subrange(j, j + 44)[n - j] == bytes[n]);
            }
        }
    }
    lemma_find_from_is(bytes, sb, 0, n + 1);
    // the last separator
    assert(occurs_at(bytes, sb, len - 45)) by {
        assert(bytes.subrange(len - 45, len - 1) =~= sb);
    }
    assert(!occurs_at(bytes, sb, len - 44)) by {
        assert(bytes.subrange(len - 44, len)[43] == bytes[len - 1]);
    }
    assert(rfind_from(bytes, sb, len - 45) == Some(len - 45));
    assert(rfind_from(bytes, sb, len - 44) == Some(len - 45));
    assert(find_last(bytes, sb) == Some(len - 45));
    // the range that is removed
    let s = if newline_at(content, n) {
        n
    } else {
        n + 1
    };
    let e = if newline_at(content, len - 1) {
        len - 1
    } else {
        len - 2
    };
    assert(block_bounds(bytes, content) == Some((s, e)));
    assert(bytes.subrange(0, n) =~= eb);
    assert(bytes.subrange(0, n + 1) =~= eb.push(10u8));
    assert(bytes.subrange(len, len) =~= Seq::<u8>::empty());
    assert(bytes.subrange(len - 1, len) =~= seq![10u8]);
    lemma_trim_push_newline(eb);
    lemma_trim_push_newline(eb.push(10u8));
    if s == n {
        if e == len - 1 {
            assert(bytes.subrange(0, s) + bytes.subrange(e + 1, len) =~= eb);
        } else {
            assert(bytes.subrange(0, s) + bytes.subrange(e + 1, len) =~= eb.push(10u8));
        }
    } else {
        if e == len - 1 {
            assert(bytes.subrange(0, s) + bytes.subrange(e + 1, len) =~= eb.push(10u8));
        } else {
            assert(bytes.subrange(0, s) + bytes.subrange(e + 1, len) =~= eb.push(10u8).push(10u8));
        }
    }
    // both ends fall on character boundaries
    encode_utf8_valid_utf8(content);
    is_char_boundary_iff_not_is_continuation_byte(bytes, n);
    is_char_boundary_iff_not_is_continuation_byte(bytes, n + 1);
    is_char_boundary_iff_not_is_continuation_byte(bytes, len - 1);
    is_char_boundary_start_end_of_seq(bytes);
}

/// `chars` without its trailing line feeds.
pub open spec fn trim_trailing_newline_chars(chars: Seq<char>) -> Seq<char>
    decreases chars.len(),
{
    if chars.len() > 0 && chars.last() == '\n' {
        trim_trailing_newline_chars(chars.drop_last())
    } else {
        chars
    }
}

proof fn lemma_last_byte_not_newline(c: char)
    requires
        c != '\n',
    ensures
        encode_utf8(seq![c]).len() > 0,
        encode_utf8(seq![c]).last() != 10u8,
{
    let v = c as u32;
    assert(seq![c].drop_first() =~= Seq::<char>::empty());
    assert(encode_utf8(Seq::<char>::empty()) =~= Seq::<u8>::empty());
    assert(seq![c][0] == c);
    assert(encode_utf8(seq![c]) == encode_scalar(v) + encode_utf8(seq![c].drop_first()));
    assert(encode_utf8(seq![c]) =~= encode_scalar(v));
    assert(v != 10u32);
    if has_width_1_encoding(v) {
        assert((v & 0x7F) as u8 != 10u8) by (bit_vector)
            requires
                v <= 0x7F,
                v != 10u32,
        ;
    } else {
        assert(0x80u8 | (v & 0x3F) as u8 != 10u8) by (bit_vector);
    }
}

/// Cutting trailing line feeds commutes with encoding.
proof fn lemma_trim_encode(s: Seq<char>)
    ensures
        trim_trailing_newlines(encode_utf8(s)) == encode_utf8(trim_trailing_newline_chars(s)),
    decreases s.len(),
{
    if s.len() > 0 {
        let a = s.drop_last();
        let c = s.last();
        assert(s =~= a + seq![c]);
        lemma_encode_utf8_concat(a, seq![c]);
        if c == '\n' {
            lemma_newline_bytes();
            assert(encode_utf8(a) + seq![10u8] =~= encode_utf8(a).push(10u8));
            lemma_trim_push_newline(encode_utf8(a));
            lemma_trim_encode(a);
        } else {
            lemma_last_byte_not_newline(c);
            let e = encode_utf8(a) + encode_utf8(seq![c]);
            assert(e.last() == encode_utf8(seq![c]).last());
        }
    }
}

/// Removing the linkup block (`clear_env_content`) from a file that
/// `write_env_content` has just extended is defined, and gives back the text
/// the file held before, without its trailing line feeds and followed by one
/// line feed.
pub proof fn lemma_clear_after_write(existing: Seq<char>, dev: Seq<char>)
    requires
        !has_block(encode_utf8(existing)),
    ensures
        clear_env_content_defined(
            encode_utf8(existing + env_block_chars(dev)),
            existing + env_block_chars(dev),
        ),
        cleared_env_content(
            encode_utf8(existing + env_block_chars(dev)),
            existing + env_block_chars(dev),
        ) == Some(encode_utf8(trim_trailing_newline_chars(existing) + seq!['\n'])),
{
    lemma_clear_after_write_bytes(existing, dev);
    lemma_trim_encode(existing);
    lemma_encode_utf8_concat(trim_trailing_newline_chars(existing), seq!['\n']);
    lemma_newline_bytes();
    assert(encode_utf8(trim_trailing_newline_chars(existing)) + seq![10u8]
        =~= encode_utf8(trim_trailing_newline_chars(existing)).push(10u8));
}

/// Once `write_env_content` has appended its block, the file holds a linkup block, so a
/// second `write_env_content` leaves it alone.
pub proof fn lemma_write_is_idempotent(existing: Seq<char>, dev: Seq<char>)
    ensures
        has_block(encode_utf8(existing + env_block_chars(dev))),
{
    let eb = encode_utf8(existing);
    let sb = separator_bytes();
    let bytes = encode_utf8(existing + env_block_chars(dev));
    lemma_separator_bytes();
    lemma_env_block_bytes(dev);
    lemma_encode_utf8_concat(existing, env_block_chars(dev));
    let n = eb.len() as int;
    assert(occurs_at(bytes, sb, n + 1)) by {
        assert(bytes.subrange(n + 1, n + 45) =~= sb);
    }
    lemma_find_from_first(bytes, sb, 0, n + 1);
}


/// A file of a service's directory that holds the linkup variables for an
/// env file: `.env.<name>.linkup`.
pub open spec fn is_dev_env_file_name(name: Seq<char>) -> bool {
    crate::text::seq_ends_with(name, ".linkup"@) && crate::text::seq_starts_with(name, ".env."@)
}

/// Whether `name` is a `.env.<name>.linkup` file.
pub fn is_dev_env_file(name: &str) -> (r: bool)
    ensures
        r == is_dev_env_file_name(name@),
{
    crate::text::ends_with(name, ".linkup") && crate::text::starts_with(name, ".env.")
}

/// The env file a `.env.<name>.linkup` file is written into: the same name
/// without `.linkup` (its file stem).
pub fn env_file_for(dev_name: &str) -> (r: String)
    requires
        is_dev_env_file_name(dev_name@),
    ensures
        r@ == dev_name@.subrange(0, dev_name@.len() - 7),
{
    proof {
        reveal_strlit(".linkup");
    }
    let n = dev_name.unicode_len();
    String::from_str(dev_name.substring_char(0, n - 7))
}

/// Paid tunnels are used where the three Cloudflare variables are set.
pub fn use_paid_tunnels(account_id_set: bool, zone_id_set: bool, api_token_set: bool) -> (r: bool)
    ensures
        r == (account_id_set && zone_id_set && api_token_set),
{
    account_id_set && zone_id_set && api_token_set
}

} // verus!
