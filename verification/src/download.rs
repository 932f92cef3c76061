//! Choosing, fetching and checking the frpc build for this machine.

use vstd::prelude::*;
use crate::models::{DownloadInfo, FrpcDownload, FrpcInfoResponse};
use crate::numbers::{decimal, parse_u64, parse_u64_exec, u64_decimal};
use crate::text::{chars_eq, chars_of, push_str, string_from, sub_chars};
use sha2::Digest;

verus! {

broadcast use vstd::string::group_string_axioms;

/// Largest byte count fetched per request.
pub const CHUNK_SIZE: u64 = 1048576;

/// Bytes read between two progress reports of a download.
pub const PROGRESS_EMIT_THRESHOLD: u64 = 102400;

/// The release asset suffix for each (OS, architecture) pair.
pub open spec fn platform_table() -> Seq<(Seq<char>, Seq<char>, Seq<char>)> {
    seq![
        ("windows"@, "x86_64"@, "win_amd64.exe"@),
        ("windows"@, "x86"@, "win_386.exe"@),
        ("windows"@, "aarch64"@, "win_arm64.exe"@),
        ("linux"@, "x86"@, "linux_386"@),
        ("linux"@, "x86_64"@, "linux_amd64"@),
        ("linux"@, "arm"@, "linux_arm"@),
        ("linux"@, "aarch64"@, "linux_arm64"@),
        ("linux"@, "mips64"@, "linux_mips64"@),
        ("linux"@, "mips"@, "linux_mips"@),
        ("linux"@, "riscv64"@, "linux_riscv64"@),
        ("macos"@, "x86_64"@, "darwin_amd64"@),
        ("macos"@, "aarch64"@, "darwin_arm64"@),
    ]
}

/// The asset suffix of the first table entry for `os` and `arch`.
pub open spec fn platform_in(t: Seq<(Seq<char>, Seq<char>, Seq<char>)>, os: Seq<char>, arch: Seq<char>) -> Option<Seq<char>>
    decreases t.len(),
{
    if t.len() == 0 {
        None
    } else if t[0].0 == os && t[0].1 == arch {
        Some(t[0].2)
    } else {
        platform_in(t.drop_first(), os, arch)
    }
}

/// The asset suffix for `os` and `arch`, if the pair is supported.
pub open spec fn platform_string(os: Seq<char>, arch: Seq<char>) -> Option<Seq<char>> {
    platform_in(platform_table(), os, arch)
}

fn platform_map() -> (r: Vec<(&'static str, &'static str, &'static str)>)
    ensures
        r@.len() == platform_table().len(),
        forall|k: int|
            0 <= k < r@.len() ==> (#[trigger] r@[k]).0@ == platform_table()[k].0 && r@[k].1@
                == platform_table()[k].1 && r@[k].2@ == platform_table()[k].2,
{
    let mut r: Vec<(&'static str, &'static str, &'static str)> = Vec::new();
    r.push(("windows", "x86_64", "win_amd64.exe"));
    r.push(("windows", "x86", "win_386.exe"));
    r.push(("windows", "aarch64", "win_arm64.exe"));
    r.push(("linux", "x86", "linux_386"));
    r.push(("linux", "x86_64", "linux_amd64"));
    r.push(("linux", "arm", "linux_arm"));
    r.push(("linux", "aarch64", "linux_arm64"));
    r.push(("linux", "mips64", "linux_mips64"));
    r.push(("linux", "mips", "linux_mips"));
    r.push(("linux", "riscv64", "linux_riscv64"));
    r.push(("macos", "x86_64", "darwin_amd64"));
    r.push(("macos", "aarch64", "darwin_arm64"));
    r
}

fn str_eq(a: &str, b: &str) -> (r: bool)
    ensures
        r == (a@ == b@),
{
    chars_eq(&chars_of(a), &chars_of(b))
}

/// The release asset suffix for an OS and architecture.
pub fn get_platform_string(os: &str, arch: &str) -> (r: Option<&'static str>)
    ensures
        r matches Some(p) ==> platform_string(os@, arch@) == Some(p@),
        r is None ==> platform_string(os@, arch@) is None,
{
    let table = platform_map();
    let ghost t = platform_table();
    let mut i: usize = 0;
    assert(t.skip(0) =~= t);
    while i < table.len()
        invariant
            i <= table.len() == t.len(),
            t == platform_table(),
            forall|k: int|
                0 <= k < table@.len() ==> (#[trigger] table@[k]).0@ == t[k].0 && table@[k].1@
                    == t[k].1 && table@[k].2@ == t[k].2,
            platform_in(t, os@, arch@) == platform_in(t.skip(i as int), os@, arch@),
        decreases table.len() - i,
    {
        proof {
            assert(t.skip(i as int).drop_first() =~= t.skip(i + 1));
            assert(t.skip(i as int)[0] == t[i as int]);
        }
        let entry = table[i];
        if str_eq(entry.0, os) && str_eq(entry.1, arch) {
            return Some(entry.2);
        }
        i = i + 1;
    }
    None
}

/// Which download architectures serve a machine: the same name, and on
/// 64-bit ARM Linux also 32-bit `arm`.
pub open spec fn arch_matches(os: Seq<char>, arch: Seq<char>, download_arch: Seq<char>) -> bool {
    if os == "windows"@ && (arch == "x86_64"@ || arch == "x86"@ || arch == "aarch64"@) {
        download_arch == arch
    } else if os == "linux"@ && arch == "aarch64"@ {
        download_arch == "aarch64"@ || download_arch == "arm"@
    } else if os == "linux"@ && (arch == "x86"@ || arch == "x86_64"@ || arch == "arm"@
        || arch == "mips64"@ || arch == "mips"@ || arch == "riscv64"@) {
        download_arch == arch
    } else if os == "macos"@ && (arch == "x86_64"@ || arch == "aarch64"@) {
        download_arch == arch
    } else {
        false
    }
}

/// Whether a download's architecture serves the machine.
pub fn matches_arch(os: &str, arch: &str, download_arch: &str) -> (r: bool)
    ensures
        r == arch_matches(os@, arch@, download_arch@),
{
    if str_eq(os, "windows") && (str_eq(arch, "x86_64") || str_eq(arch, "x86") || str_eq(
        arch,
        "aarch64",
    )) {
        str_eq(download_arch, arch)
    } else if str_eq(os, "linux") && str_eq(arch, "aarch64") {
        str_eq(download_arch, "aarch64") || str_eq(download_arch, "arm")
    } else if str_eq(os, "linux") && (str_eq(arch, "x86") || str_eq(arch, "x86_64") || str_eq(
        arch,
        "arm",
    ) || str_eq(arch, "mips64") || str_eq(arch, "mips") || str_eq(arch, "riscv64")) {
        str_eq(download_arch, arch)
    } else if str_eq(os, "macos") && (str_eq(arch, "x86_64") || str_eq(arch, "aarch64")) {
        str_eq(download_arch, arch)
    } else {
        false
    }
}

} // verus!

verus! {

/// A copy of a download entry.
pub fn copy_download(d: &FrpcDownload) -> (r: FrpcDownload)
    ensures
        r == *d,
{
    FrpcDownload {
        hash: d.hash.clone(),
        os: d.os.clone(),
        hash_type: d.hash_type.clone(),
        platform: d.platform.clone(),
        link: d.link.clone(),
        arch: d.arch.clone(),
        size: d.size,
    }
}

/// The downloads built for platform `p`, in order.
pub open spec fn by_platform(s: Seq<FrpcDownload>, p: Seq<char>) -> Seq<FrpcDownload>
    decreases s.len(),
{
    if s.len() == 0 {
        Seq::empty()
    } else {
        let r = by_platform(s.drop_last(), p);
        if s.last().platform@ == p {
            r.push(s.last())
        } else {
            r
        }
    }
}

/// The downloads for `target_os` whose architecture serves `os`/`arch`, in order.
pub open spec fn by_os_arch(
    s: Seq<FrpcDownload>,
    target_os: Seq<char>,
    os: Seq<char>,
    arch: Seq<char>,
) -> Seq<FrpcDownload>
    decreases s.len(),
{
    if s.len() == 0 {
        Seq::empty()
    } else {
        let r = by_os_arch(s.drop_last(), target_os, os, arch);
        if s.last().os@ == target_os && arch_matches(os, arch, s.last().arch@) {
            r.push(s.last())
        } else {
            r
        }
    }
}

/// The largest download, the last one among equals (`Iterator::max_by_key`).
pub open spec fn largest(s: Seq<FrpcDownload>) -> FrpcDownload
    decreases s.len(),
{
    if s.len() <= 1 {
        s[0]
    } else {
        let b = largest(s.drop_last());
        if s.last().size >= b.size {
            s.last()
        } else {
            b
        }
    }
}

/// The OS name the release feed uses: `darwin` for macOS.
pub open spec fn feed_os(os: Seq<char>) -> Seq<char> {
    if os == "macos"@ {
        "darwin"@
    } else {
        os
    }
}

/// The candidates for a machine: those built for its platform string, or,
/// when there are none, those for its OS whose architecture serves it.
pub open spec fn candidates(s: Seq<FrpcDownload>, p: Seq<char>, os: Seq<char>, arch: Seq<char>) -> Seq<FrpcDownload> {
    if by_platform(s, p).len() > 0 {
        by_platform(s, p)
    } else {
        by_os_arch(s, feed_os(os), os, arch)
    }
}

/// The build chosen from a release feed for a machine, or why none is: the
/// feed answered with an error, the machine's platform is not supported,
/// or no build fits it. Among several fitting builds the largest is taken.
pub open spec fn chosen_download(
    resp: FrpcInfoResponse,
    os: Seq<char>,
    arch: Seq<char>,
) -> Result<FrpcDownload, Seq<char>> {
    if resp.code != 200 || resp.state@ != "success"@ {
        Err("API 返回错误: "@ + resp.msg@)
    } else {
        match platform_string(os, arch) {
            None => Err("不支持的平台: "@ + os + " "@ + arch),
            Some(p) => {
                let m = candidates(resp.data.downloads@, p, os, arch);
                if m.len() == 0 {
                    Err("未找到匹配的下载: "@ + os + " "@ + arch)
                } else {
                    Ok(largest(m))
                }
            },
        }
    }
}

fn filter_platform(s: &Vec<FrpcDownload>, p: &str) -> (r: Vec<FrpcDownload>)
    ensures
        r@ == by_platform(s@, p@),
{
    let mut r: Vec<FrpcDownload> = Vec::new();
    let mut i: usize = 0;
    assert(s@.take(0) =~= Seq::<FrpcDownload>::empty());
    while i < s.len()
        invariant
            i <= s.len(),
            r@ == by_platform(s@.take(i as int), p@),
        decreases s.len() - i,
    {
        assert(s@.take(i + 1).drop_last() =~= s@.take(i as int));
        if str_eq(s[i].platform.as_str(), p) {
            r.push(copy_download(&s[i]));
        }
        i = i + 1;
    }
    assert(s@.take(s.len() as int) =~= s@);
    r
}

fn filter_os_arch(s: &Vec<FrpcDownload>, target_os: &str, os: &str, arch: &str) -> (r: Vec<FrpcDownload>)
    ensures
        r@ == by_os_arch(s@, target_os@, os@, arch@),
{
    let mut r: Vec<FrpcDownload> = Vec::new();
    let mut i: usize = 0;
    assert(s@.take(0) =~= Seq::<FrpcDownload>::empty());
    while i < s.len()
        invariant
            i <= s.len(),
            r@ == by_os_arch(s@.take(i as int), target_os@, os@, arch@),
        decreases s.len() - i,
    {
        assert(s@.take(i + 1).drop_last() =~= s@.take(i as int));
        if str_eq(s[i].os.as_str(), target_os) && matches_arch(os, arch, s[i].arch.as_str()) {
            r.push(copy_download(&s[i]));
        }
        i = i + 1;
    }
    assert(s@.take(s.len() as int) =~= s@);
    r
}

fn pick_largest(s: &Vec<FrpcDownload>) -> (r: FrpcDownload)
    requires
        s.len() > 0,
    ensures
        r == largest(s@),
{
    let mut best: usize = 0;
    let mut i: usize = 1;
    assert(s@.take(1).len() == 1);
    while i < s.len()
        invariant
            1 <= i <= s.len(),
            best < s.len(),
            s@[best as int] == largest(s@.take(i as int)),
        decreases s.len() - i,
    {
        assert(s@.take(i + 1).drop_last() =~= s@.take(i as int));
        if s[i].size >= s[best].size {
            best = i;
        }
        i = i + 1;
    }
    assert(s@.take(s.len() as int) =~= s@);
    copy_download(&s[best])
}

fn message_with_machine(prefix: &str, os: &str, arch: &str) -> (r: String)
    ensures
        r@ == prefix@ + os@ + " "@ + arch@,
{
    let mut v = chars_of(prefix);
    push_str(&mut v, os);
    push_str(&mut v, " ");
    push_str(&mut v, arch);
    string_from(&v)
}

/// The build to download for a machine, from the release feed's answer.
pub fn choose_download(resp: &FrpcInfoResponse, os: &str, arch: &str) -> (r: Result<DownloadInfo, String>)
    ensures
        r matches Ok(info) ==> chosen_download(*resp, os@, arch@) matches Ok(d) && info.url
            == d.link && info.hash == d.hash && info.size == d.size,
        r matches Err(e) ==> chosen_download(*resp, os@, arch@) == Err::<FrpcDownload, Seq<char>>(
            e@,
        ),
{
    if resp.code != 200 || !str_eq(resp.state.as_str(), "success") {
        let mut v = chars_of("API 返回错误: ");
        push_str(&mut v, resp.msg.as_str());
        return Err(string_from(&v));
    }
    let platform = match get_platform_string(os, arch) {
        Some(p) => p,
        None => {
            return Err(message_with_machine("不支持的平台: ", os, arch));
        },
    };
    let first = filter_platform(&resp.data.downloads, platform);
    let matched = if first.len() > 0 {
        first
    } else {
        let target_os = if str_eq(os, "macos") {
            "darwin"
        } else {
            os
        };
        filter_os_arch(&resp.data.downloads, target_os, os, arch)
    };
    if matched.len() == 0 {
        return Err(message_with_machine("未找到匹配的下载: ", os, arch));
    }
    let d = pick_largest(&matched);
    Ok(DownloadInfo { url: d.link, hash: d.hash, size: d.size })
}

} // verus!

verus! {

// ---------------------------------------------------------------------------
// Checking the downloaded file
// ---------------------------------------------------------------------------

/// The SHA-256 digest of some bytes.
pub uninterp spec fn sha256_of(data: Seq<u8>) -> Seq<u8>;

/// `Sha256::digest` of the `sha2` crate: the 32-byte SHA-256 digest of the
/// data, named `sha256_of`; what the digest is is not restated here.
#[verifier::external_body]
fn sha256_digest(data: &[u8]) -> (r: Vec<u8>)
    ensures
        r@ == sha256_of(data@),
        r@.len() == 32,
{
    sha2::Sha256::digest(data).to_vec()
}

/// A lower-case hexadecimal digit.
pub open spec fn hex_digit(n: int) -> char {
    if n < 10 {
        (48 + n) as char
    } else {
        (87 + n) as char
    }
}

/// Each byte as two lower-case hexadecimal digits, high nibble first.
pub open spec fn hex_lower(b: Seq<u8>) -> Seq<char>
    decreases b.len(),
{
    if b.len() == 0 {
        Seq::empty()
    } else {
        hex_lower(b.drop_last()) + seq![hex_digit((b.last() / 16) as int), hex_digit((b.last() % 16) as int)]
    }
}

/// `hex::encode`: each byte as two lower-case hexadecimal digits, high
/// nibble first, in order (the crate's `HEX_CHARS_LOWER` table).
#[verifier::external_body]
fn hex_encode(data: &[u8]) -> (r: String)
    ensures
        r@ == hex_lower(data@),
{
    hex::encode(data)
}

/// The lower-case form of a string under Unicode's case mapping.
pub uninterp spec fn lowercase_of(s: Seq<char>) -> Seq<char>;

/// `str::to_lowercase`: the string's lower-case form, named `lowercase_of`;
/// the Unicode mapping itself is not restated.
#[verifier::external_body]
pub(crate) fn to_lowercase(s: &str) -> (r: String)
    ensures
        r@ == lowercase_of(s@),
{
    s.to_lowercase()
}

/// Whether a file's bytes have the expected SHA-256 hash, comparing the hex
/// digests case-insensitively; else the message naming both.
pub open spec fn hash_check(data: Seq<u8>, expected: Seq<char>) -> Result<(), Seq<char>> {
    let computed = hex_lower(sha256_of(data));
    if lowercase_of(computed) == lowercase_of(expected) {
        Ok(())
    } else {
        Err("文件 hash 验证失败: 预期 "@ + expected + ", 实际 "@ + computed)
    }
}

/// Checks a downloaded file's bytes against the expected SHA-256 hash.
pub fn verify_sha256(data: &[u8], expected_hash: &str) -> (r: Result<(), String>)
    ensures
        r matches Ok(_) ==> hash_check(data@, expected_hash@) is Ok,
        r matches Err(e) ==> hash_check(data@, expected_hash@) == Err::<(), Seq<char>>(e@),
{
    let digest = sha256_digest(data);
    let computed = hex_encode(digest.as_slice());
    let a = to_lowercase(computed.as_str());
    let b = to_lowercase(expected_hash);
    if !chars_eq(&chars_of(a.as_str()), &chars_of(b.as_str())) {
        let mut v = chars_of("文件 hash 验证失败: 预期 ");
        push_str(&mut v, expected_hash);
        push_str(&mut v, ", 实际 ");
        push_str(&mut v, computed.as_str());
        return Err(string_from(&v));
    }
    Ok(())
}

// ---------------------------------------------------------------------------
// Fetching in ranges
// ---------------------------------------------------------------------------

/// The byte range of the next request: the first chunk, or the chunk after
/// what has arrived, never past the known total.
pub open spec fn range_of(downloaded: u64, total: u64) -> (u64, u64) {
    if downloaded == 0 && total == 0 {
        (0, (CHUNK_SIZE - 1) as u64)
    } else if downloaded > 0 {
        if total > 0 {
            (downloaded, if downloaded + CHUNK_SIZE - 1 <= total - 1 {
                (downloaded + CHUNK_SIZE - 1) as u64
            } else {
                (total - 1) as u64
            })
        } else {
            (downloaded, (downloaded + CHUNK_SIZE - 1) as u64)
        }
    } else {
        (0, if CHUNK_SIZE - 1 <= total - 1 {
            (CHUNK_SIZE - 1) as u64
        } else {
            (total - 1) as u64
        })
    }
}

/// The `Range` header value of the next request, `bytes=<start>-<end>`.
pub fn range_header(downloaded: u64, total: u64) -> (r: String)
    requires
        downloaded <= u64::MAX - CHUNK_SIZE,
    ensures
        r@ == "bytes="@ + decimal(range_of(downloaded, total).0 as nat) + "-"@ + decimal(
            range_of(downloaded, total).1 as nat,
        ),
{
    let (start, end) = if downloaded == 0 && total == 0 {
        (0u64, CHUNK_SIZE - 1)
    } else if downloaded > 0 {
        if total > 0 {
            let a = downloaded + CHUNK_SIZE - 1;
            (downloaded, if a <= total - 1 {
                a
            } else {
                total - 1
            })
        } else {
            (downloaded, downloaded + CHUNK_SIZE - 1)
        }
    } else {
        (0u64, if CHUNK_SIZE - 1 <= total - 1 {
            CHUNK_SIZE - 1
        } else {
            total - 1
        })
    };
    let mut v = chars_of("bytes=");
    let mut a = u64_decimal(start);
    v.append(&mut a);
    push_str(&mut v, "-");
    let mut b = u64_decimal(end);
    v.append(&mut b);
    string_from(&v)
}

/// Position of the last occurrence of `c` in `s`.
pub open spec fn rfind_char(s: Seq<char>, c: char) -> Option<int>
    decreases s.len(),
{
    if s.len() == 0 {
        None
    } else if s.last() == c {
        Some(s.len() - 1)
    } else {
        rfind_char(s.drop_last(), c)
    }
}

/// The complete size a `Content-Range` value states after its last `/`.
pub open spec fn content_range_size(header: Seq<char>) -> Option<u64> {
    match rfind_char(header, '/') {
        Some(p) => parse_u64(header.skip(p + 1)),
        None => None,
    }
}

pub(crate) fn rfind_char_exec(v: &Vec<char>, c: char) -> (r: Option<usize>)
    ensures
        r matches Some(k) ==> rfind_char(v@, c) == Some(k as int) && k < v.len(),
        r is None ==> rfind_char(v@, c) is None,
{
    let mut i: usize = v.len();
    assert(v@.take(v.len() as int) =~= v@);
    while i > 0
        invariant
            i <= v.len(),
            rfind_char(v@, c) == rfind_char(v@.take(i as int), c),
        decreases i,
    {
        assert(v@.take(i as int).drop_last() =~= v@.take(i - 1));
        if v[i - 1] == c {
            return Some(i - 1);
        }
        i = i - 1;
    }
    None
}

/// The total size known after a response: a partial response (206) whose
/// `Content-Range` states a positive size gives that size; a full response
/// with a `Content-Length` gives its length when no total was known yet.
pub open spec fn total_after(
    total: u64,
    partial: bool,
    content_range: Option<Seq<char>>,
    content_length: Option<u64>,
) -> u64 {
    if partial {
        match content_range {
            Some(h) => match content_range_size(h) {
                Some(size) => if size > 0 && total != size {
                    size
                } else {
                    total
                },
                None => total,
            },
            None => total,
        }
    } else {
        match content_length {
            Some(len) => if total == 0 {
                len
            } else {
                total
            },
            None => total,
        }
    }
}

/// Updates the expected total size from a response's headers.
pub fn update_total(
    total: u64,
    partial: bool,
    content_range: Option<&str>,
    content_length: Option<u64>,
) -> (r: u64)
    ensures
        r == total_after(
            total,
            partial,
            match content_range {
                Some(h) => Some(h@),
                None => None,
            },
            content_length,
        ),
{
    if partial {
        match content_range {
            Some(h) => {
                let v = chars_of(h);
                match rfind_char_exec(&v, '/') {
                    Some(p) => {
                        let rest = sub_chars(&v, p + 1, v.len());
                        assert(rest@ =~= v@.skip(p + 1));
                        match parse_u64_exec(&rest) {
                            Some(size) => if size > 0 && total != size {
                                size
                            } else {
                                total
                            },
                            None => total,
                        }
                    },
                    None => total,
                }
            },
            None => total,
        }
    } else {
        match content_length {
            Some(len) => if total == 0 {
                len
            } else {
                total
            },
            None => total,
        }
    }
}

/// Most attempts at one range before giving up.
pub const MAX_RETRIES: u32 = 5;

/// What to do after a range has been read.
#[derive(Debug, Clone, Copy, PartialEq, Eq, Structural)]
pub enum ChunkStep {
    /// Everything has arrived.
    Finished,
    /// Request the next range.
    Next,
    /// The range broke off: wait and try again, having tried this many times.
    Retry(u32),
    /// The range broke off too often.
    GiveUp,
}

/// The decision after a range. `this_chunk` counts the bytes read since
/// the last progress report (reports come every 100 KiB and reset it).
/// Without a stream error, the download is complete when the known total
/// has arrived, when no total is known and `this_chunk` is short of a whole
/// range, or when `this_chunk` is 0; otherwise the next range follows. A
/// failed request or stream counts as one more try, and the fifth gives up.
pub open spec fn chunk_step_of(
    stream_error: bool,
    total: u64,
    downloaded: u64,
    this_chunk: u64,
    retries: u32,
) -> ChunkStep {
    if !stream_error {
        if (total > 0 && downloaded >= total) || (total == 0 && this_chunk < CHUNK_SIZE)
            || this_chunk == 0 {
            ChunkStep::Finished
        } else {
            ChunkStep::Next
        }
    } else if retries + 1 >= MAX_RETRIES {
        ChunkStep::GiveUp
    } else {
        ChunkStep::Retry((retries + 1) as u32)
    }
}

/// Decides how the download goes on after a range.
pub fn chunk_step(stream_error: bool, total: u64, downloaded: u64, this_chunk: u64, retries: u32) -> (r: ChunkStep)
    requires
        retries < MAX_RETRIES,
    ensures
        r == chunk_step_of(stream_error, total, downloaded, this_chunk, retries),
{
    if !stream_error {
        if (total > 0 && downloaded >= total) || (total == 0 && this_chunk < CHUNK_SIZE)
            || this_chunk == 0 {
            ChunkStep::Finished
        } else {
            ChunkStep::Next
        }
    } else if retries + 1 >= MAX_RETRIES {
        ChunkStep::GiveUp
    } else {
        ChunkStep::Retry(retries + 1)
    }
}

/// Whether the finished download is whole: not short of a known total, and
/// not empty.
pub open spec fn completeness(total: u64, downloaded: u64) -> Result<(), Seq<char>> {
    if total > 0 && downloaded < total {
        Err("下载不完整: 预期 "@ + decimal(total as nat) + " bytes, 实际 "@ + decimal(downloaded as nat) + " bytes"@)
    } else if downloaded == 0 {
        Err("下载失败: 没有接收到任何数据"@)
    } else {
        Ok(())
    }
}

/// Checks that a finished download is whole.
pub fn check_complete(total: u64, downloaded: u64) -> (r: Result<(), String>)
    ensures
        r matches Ok(_) ==> completeness(total, downloaded) is Ok,
        r matches Err(e) ==> completeness(total, downloaded) == Err::<(), Seq<char>>(e@),
{
    if total > 0 && downloaded < total {
        let mut v = chars_of("下载不完整: 预期 ");
        let mut a = u64_decimal(total);
        v.append(&mut a);
        push_str(&mut v, " bytes, 实际 ");
        let mut b = u64_decimal(downloaded);
        v.append(&mut b);
        push_str(&mut v, " bytes");
        return Err(string_from(&v));
    }
    if downloaded == 0 {
        return Err("下载失败: 没有接收到任何数据".to_owned());
    }
    Ok(())
}

} // verus!

verus! {

proof fn lemma_largest_is_max(s: Seq<FrpcDownload>)
    requires
        s.len() > 0,
    ensures
        s.contains(largest(s)),
        forall|i: int| 0 <= i < s.len() ==> (#[trigger] s[i]).size <= largest(s).size,
    decreases s.len(),
{
    if s.len() == 1 {
        assert(s[0] == s[0]);
    } else {
        let prev = s.drop_last();
        lemma_largest_is_max(prev);
        let b = largest(prev);
        let k = choose|k: int| 0 <= k < prev.len() && prev[k] == b;
        assert(s[k] == b);
        assert(s[s.len() - 1] == s.last());
        assert forall|i: int| 0 <= i < s.len() implies (#[trigger] s[i]).size <= largest(s).size by {
            if i < s.len() - 1 {
                assert(s[i] == prev[i]);
            }
        }
    }
}

proof fn lemma_by_platform_members(s: Seq<FrpcDownload>, p: Seq<char>)
    ensures
        forall|x: FrpcDownload| #[trigger] by_platform(s, p).contains(x) <==> (s.contains(x) && x.platform@ == p),
    decreases s.len(),
{
    if s.len() > 0 {
        let prev = s.drop_last();
        lemma_by_platform_members(prev, p);
        assert forall|x: FrpcDownload| #[trigger] by_platform(s, p).contains(x) <==> (s.contains(x)
            && x.platform@ == p) by {
            let r = by_platform(prev, p);
            if s.contains(x) && x.platform@ == p {
                let k = choose|k: int| 0 <= k < s.len() && s[k] == x;
                if k < s.len() - 1 {
                    assert(prev[k] == x);
                    assert(prev.contains(x));
                    assert(r.contains(x));
                    if s.last().platform@ == p {
                        let j = choose|j: int| 0 <= j < r.len() && r[j] == x;
                        assert(r.push(s.last())[j] == x);
                    }
                } else {
                    assert(r.push(s.last())[r.len() as int] == x);
                }
            }
            if by_platform(s, p).contains(x) {
                let j = choose|j: int| 0 <= j < by_platform(s, p).len() && by_platform(s, p)[j] == x;
                if s.last().platform@ == p && j == r.len() {
                    assert(s[s.len() - 1] == x);
                } else {
                    assert(r[j] == x);
                    assert(r.contains(x));
                    let k = choose|k: int| 0 <= k < prev.len() && prev[k] == x;
                    assert(s[k] == x);
                }
            }
        }
    }
}

proof fn lemma_by_os_arch_members(s: Seq<FrpcDownload>, target_os: Seq<char>, os: Seq<char>, arch: Seq<char>)
    ensures
        forall|x: FrpcDownload| #[trigger] by_os_arch(s, target_os, os, arch).contains(x) <==> (s.contains(x)
            && x.os@ == target_os && arch_matches(os, arch, x.arch@)),
    decreases s.len(),
{
    if s.len() > 0 {
        let prev = s.drop_last();
        lemma_by_os_arch_members(prev, target_os, os, arch);
        assert forall|x: FrpcDownload| #[trigger] by_os_arch(s, target_os, os, arch).contains(x) <==> (
        s.contains(x) && x.os@ == target_os && arch_matches(os, arch, x.arch@)) by {
            let r = by_os_arch(prev, target_os, os, arch);
            let fits = s.last().os@ == target_os && arch_matches(os, arch, s.last().arch@);
            if s.contains(x) && x.os@ == target_os && arch_matches(os, arch, x.arch@) {
                let k = choose|k: int| 0 <= k < s.len() && s[k] == x;
                if k < s.len() - 1 {
                    assert(prev[k] == x);
                    assert(prev.contains(x));
                    assert(r.contains(x));
                    if fits {
                        let j = choose|j: int| 0 <= j < r.len() && r[j] == x;
                        assert(r.push(s.last())[j] == x);
                    }
                } else {
                    assert(r.push(s.last())[r.len() as int] == x);
                }
            }
            if by_os_arch(s, target_os, os, arch).contains(x) {
                let q = by_os_arch(s, target_os, os, arch);
                let j = choose|j: int| 0 <= j < q.len() && q[j] == x;
                if fits && j == r.len() {
                    assert(s[s.len() - 1] == x);
                } else {
                    assert(r[j] == x);
                    assert(r.contains(x));
                    let k = choose|k: int| 0 <= k < prev.len() && prev[k] == x;
                    assert(s[k] == x);
                }
            }
        }
    }
}

/// Whether a build in the feed fits the machine: built for its platform
/// string, or, when the feed has no such build, built for its OS with an
/// architecture that serves it.
pub open spec fn fits_machine(
    d: FrpcDownload,
    feed: Seq<FrpcDownload>,
    p: Seq<char>,
    os: Seq<char>,
    arch: Seq<char>,
) -> bool {
    if exists|k: int| 0 <= k < feed.len() && (#[trigger] feed[k]).platform@ == p {
        d.platform@ == p
    } else {
        d.os@ == feed_os(os) && arch_matches(os, arch, d.arch@)
    }
}

/// The build chosen for a machine is one of the feed's builds that fit it,
/// and no fitting build is larger; when no build fits, none is chosen.
pub proof fn chosen_download_is_largest_fitting(resp: FrpcInfoResponse, os: Seq<char>, arch: Seq<char>)
    requires
        resp.code == 200,
        resp.state@ == "success"@,
        platform_string(os, arch) is Some,
    ensures
        ({
            let feed = resp.data.downloads@;
            let p = platform_string(os, arch).unwrap();
            match chosen_download(resp, os, arch) {
                Ok(d) => {
                    &&& feed.contains(d)
                    &&& fits_machine(d, feed, p, os, arch)
                    &&& forall|i: int|
                        0 <= i < feed.len() && fits_machine(#[trigger] feed[i], feed, p, os, arch)
                            ==> feed[i].size <= d.size
                },
                Err(_) => forall|i: int| 0 <= i < feed.len() ==> !fits_machine(#[trigger] feed[i], feed, p, os, arch),
            }
        }),
{
    let feed = resp.data.downloads@;
    let p = platform_string(os, arch).unwrap();
    lemma_by_platform_members(feed, p);
    lemma_by_os_arch_members(feed, feed_os(os), os, arch);
    let m = candidates(feed, p, os, arch);
    let any_p = exists|k: int| 0 <= k < feed.len() && (#[trigger] feed[k]).platform@ == p;
    if any_p {
        let k = choose|k: int| 0 <= k < feed.len() && (#[trigger] feed[k]).platform@ == p;
        assert(feed.contains(feed[k]));
        assert(by_platform(feed, p).contains(feed[k]));
        assert(by_platform(feed, p).len() > 0);
    } else {
        if by_platform(feed, p).len() > 0 {
            let x = by_platform(feed, p)[0];
            assert(by_platform(feed, p).contains(x));
            let k = choose|k: int| 0 <= k < feed.len() && feed[k] == x;
            assert(feed[k].platform@ == p);
        }
    }
    assert forall|x: FrpcDownload| feed.contains(x) implies (m.contains(x) <==> fits_machine(x, feed, p, os, arch)) by {}
    if m.len() > 0 {
        lemma_largest_is_max(m);
        let d = largest(m);
        assert(m.contains(d));
        assert forall|i: int|
            0 <= i < feed.len() && fits_machine(#[trigger] feed[i], feed, p, os, arch) implies feed[i].size <= d.size by {
            assert(feed.contains(feed[i]));
            assert(m.contains(feed[i]));
            let j = choose|j: int| 0 <= j < m.len() && m[j] == feed[i];
            assert(m[j].size <= d.size);
        }
    } else {
        assert forall|i: int| 0 <= i < feed.len() implies !fits_machine(#[trigger] feed[i], feed, p, os, arch) by {
            assert(feed.contains(feed[i]));
            if m.contains(feed[i]) {
                let j = choose|j: int| 0 <= j < m.len() && m[j] == feed[i];
            }
        }
    }
}

} // verus!
