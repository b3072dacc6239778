//! Parsed archive header metadata, and recognition of the sentinel line
//! that terminates the plaintext header of an archive.

use vstd::prelude::*;

use crate::errors::XarError;

verus! {

/// Immutable metadata parsed from the plaintext header of an archive.
/// Owned for the duration of one invocation.
pub struct XarHeader {
    /// Byte offset where the embedded filesystem image begins.
    pub offset: u64,
    /// Header format version.
    pub version: String,
    /// Executable inside the archive that the launcher runs.
    pub xarexec_target: String,
    /// Identifier stable per archive build; the stem of the mount directory.
    pub uuid: String,
    /// Explicit mount root demanded by the archive, if any.
    pub mount_root: Option<String>,
}

/// The bytes of the sentinel `#xar_stop` that opens the terminator line
/// of a plaintext header.
pub open spec fn sentinel() -> Seq<u8> {
    seq![35u8, 120u8, 97u8, 114u8, 95u8, 115u8, 116u8, 111u8, 112u8]
}

/// `i` starts a line: it is the start of the stream or follows a newline.
pub open spec fn is_line_start(bytes: Seq<u8>, i: int) -> bool {
    i == 0 || bytes[i - 1] == 10u8
}

/// The line starting at `i` begins with the sentinel.
pub open spec fn sentinel_at(bytes: Seq<u8>, i: int) -> bool {
    0 <= i && i + 9 <= bytes.len() && bytes.subrange(i, i + 9) == sentinel()
}

/// One past the newline that ends the line starting at `i`, or the end
/// of the stream when no newline follows.
pub open spec fn line_end(bytes: Seq<u8>, i: int) -> int
    decreases bytes.len() - i,
{
    if i < 0 || i >= bytes.len() {
        bytes.len() as int
    } else if bytes[i] == 10u8 {
        i + 1
    } else {
        line_end(bytes, i + 1)
    }
}

/// The first line start at or after `i` whose line begins with the
/// sentinel, if any.
pub open spec fn first_sentinel_line_from(bytes: Seq<u8>, i: int) -> Option<int>
    decreases bytes.len() - i,
{
    if i < 0 || i >= bytes.len() {
        None
    } else if is_line_start(bytes, i) && sentinel_at(bytes, i) {
        Some(i)
    } else {
        first_sentinel_line_from(bytes, i + 1)
    }
}

/// The first sentinel line of the stream, if any.
pub open spec fn first_sentinel_line(bytes: Seq<u8>) -> Option<int> {
    first_sentinel_line_from(bytes, 0)
}

proof fn lemma_line_end_props(bytes: Seq<u8>, i: int)
    requires
        0 <= i <= bytes.len(),
    ensures
        i <= line_end(bytes, i) <= bytes.len(),
        i < bytes.len() ==> i + 1 <= line_end(bytes, i),
        forall|t: int| i <= t < line_end(bytes, i) - 1 ==> bytes[t] != 10u8,
        line_end(bytes, i) == bytes.len() || bytes[line_end(bytes, i) - 1] == 10u8,
    decreases bytes.len() - i,
{
    if i < bytes.len() && bytes[i] != 10u8 {
        lemma_line_end_props(bytes, i + 1);
    }
}

proof fn lemma_first_sentinel_skip(bytes: Seq<u8>, i: int, next: int)
    requires
        0 <= i <= next <= bytes.len(),
        forall|t: int| i <= t < next ==> !(is_line_start(bytes, t) && sentinel_at(bytes, t)),
    ensures
        first_sentinel_line_from(bytes, i) == first_sentinel_line_from(bytes, next),
    decreases next - i,
{
    if i < next {
        lemma_first_sentinel_skip(bytes, i + 1, next);
    }
}

fn sentinel_byte(k: usize) -> (b: u8)
    requires
        k < 9,
    ensures
        b == sentinel()[k as int],
{
    match k {
        0 => 35,
        1 => 120,
        2 => 97,
        3 => 114,
        4 => 95,
        5 => 115,
        6 => 116,
        7 => 111,
        _ => 112,
    }
}

fn sentinel_at_exec(bytes: &Vec<u8>, i: usize) -> (b: bool)
    requires
        i <= bytes@.len(),
    ensures
        b == sentinel_at(bytes@, i as int),
{
    let n = bytes.len();
    if n - i < 9 {
        return false;
    }
    let mut k: usize = 0;
    while k < 9
        invariant
            i + 9 <= n,
            n == bytes@.len(),
            0 <= k <= 9,
            forall|t: int| 0 <= t < k ==> bytes@[i + t] == sentinel()[t],
        decreases 9 - k,
    {
        if bytes[i + k] != sentinel_byte(k) {
            proof {
                assert(bytes@.subrange(i as int, i as int + 9)[k as int] == bytes@[i + k]);
            }
            return false;
        }
        k = k + 1;
    }
    proof {
        assert(bytes@.subrange(i as int, i as int + 9) =~= sentinel());
    }
    true
}

/// Scans for the newline ending the line that starts at `from`; returns
/// one past it, or the end of the stream when no newline follows.
fn scan_line_end(bytes: &Vec<u8>, from: usize) -> (e: usize)
    requires
        from <= bytes@.len(),
    ensures
        e as int == line_end(bytes@, from as int),
        from <= e <= bytes@.len(),
{
    let n = bytes.len();
    let mut j = from;
    while j < n
        invariant
            from <= j <= n,
            n == bytes@.len(),
            line_end(bytes@, from as int) == line_end(bytes@, j as int),
        decreases n - j,
    {
        if bytes[j] == 10 {
            return j + 1;
        }
        j = j + 1;
    }
    n
}

/// Finds the end of the plaintext header: the byte position immediately
/// following the first line that begins with the sentinel `#xar_stop`.
/// Returns `None` when no such line appears before the stream ends —
/// the malformed-header case.
pub fn find_header_end(bytes: &Vec<u8>) -> (r: Option<usize>)
    ensures
        match first_sentinel_line(bytes@) {
            Some(s) => r matches Some(e) && e as int == line_end(bytes@, s),
            None => r is None,
        },
{
    let n = bytes.len();
    let mut i: usize = 0;
    while i < n
        invariant
            0 <= i <= n,
            n == bytes@.len(),
            i as int == bytes@.len() || is_line_start(bytes@, i as int),
            first_sentinel_line(bytes@) == first_sentinel_line_from(bytes@, i as int),
        decreases n - i,
    {
        if sentinel_at_exec(bytes, i) {
            proof {
                assert(first_sentinel_line_from(bytes@, i as int) == Some(i as int));
            }
            let e = scan_line_end(bytes, i);
            return Some(e);
        }
        let e = scan_line_end(bytes, i);
        proof {
            lemma_line_end_props(bytes@, i as int);
            assert forall|t: int| i <= t < e implies !(is_line_start(bytes@, t) && sentinel_at(
                bytes@,
                t,
            )) by {
                if i < t < e {
                    assert(bytes@[t - 1] != 10u8);
                }
            }
            lemma_first_sentinel_skip(bytes@, i as int, e as int);
        }
        i = e;
    }
    None
}

/// The parser-contract form of the scan: the byte position immediately
/// following the sentinel line — where the embedded image must begin —
/// or `XarError::HeaderFormat` when no sentinel terminator line appears
/// before the stream ends.
pub fn header_payload_offset(bytes: &Vec<u8>) -> (r: Result<usize, XarError>)
    ensures
        match first_sentinel_line(bytes@) {
            Some(s) => r matches Ok(e) && e as int == line_end(bytes@, s),
            None => r matches Err(e) && e == XarError::HeaderFormat,
        },
{
    match find_header_end(bytes) {
        Some(e) => Ok(e),
        None => Err(XarError::HeaderFormat),
    }
}

} // verus!
